//! Output-directory resolution: `ValidateOutputDirectory()`
//! (UniExtract.au3:526-544), `GetLastOutdir()` (UniExtract.au3:872-878),
//! `CreateOutdir()` (UniExtract.au3:3968-3978), the empty-outdir cleanup
//! check inside `terminate()` (UniExtract.au3:4224), and `$initoutdir`'s
//! computation inside `FilenameParse()` (UniExtract.au3:500-518).
use vstd::prelude::*;
use crate::extract::{cat2, cat3};
use crate::file_arg::{drive_absolute, is_drive_absolute, is_unc, unc};
use crate::status::Status;
use crate::text::{
    chars_of, eq_ignore_ascii_case, last_index_of, owned, replace_char, replace_char_str, rfind_char,
    str_contains_char, str_eq_ignore_ascii_case, string_from_chars, string_from_range,
};

verus! {

// ---------------------------------------------------------------------
// Default output subfolder
// ---------------------------------------------------------------------
/// The default `/sub` destination.
pub open spec fn default_subfolder(
    filedir: Seq<char>,
    stem: Seq<char>,
    has_extension: bool,
    initoutdir_collision: bool,
    unpacked_suffix: Seq<char>,
) -> Seq<char> {
    if has_extension {
        if stem.contains('.') && initoutdir_collision {
            filedir + "\\"@ + replace_char(stem, '.', '_')
        } else {
            filedir + "\\"@ + stem
        }
    } else {
        filedir + "\\"@ + stem + "_"@ + unpacked_suffix
    }
}

/// `$initoutdir`'s computation inside `FilenameParse()`
/// (UniExtract.au3:500-518). `stem` is the filename with only its last
/// extension trimmed when `has_extension`, else the whole filename.
///
/// With an extension the result is `filedir\<stem>` — unless `stem`
/// still holds a `.` (a multi-extension name) and a plain file already
/// exists at that path (`initoutdir_collision`), in which case every `.`
/// of the stem becomes `_`. Without an extension the result is
/// `filedir\<stem>_<unpacked_suffix>` (the caller supplies the translated
/// suffix).
pub fn default_output_subfolder(
    filedir: &str,
    stem: &str,
    has_extension: bool,
    initoutdir_collision: bool,
    unpacked_suffix: &str,
) -> (r: String)
    ensures
        r@ == default_subfolder(filedir@, stem@, has_extension, initoutdir_collision, unpacked_suffix@),
{
    if has_extension {
        if str_contains_char(stem, '.') && initoutdir_collision {
            let replaced = replace_char_str(stem, '.', '_');
            cat3(filedir, "\\", replaced.as_str())
        } else {
            cat3(filedir, "\\", stem)
        }
    } else {
        let mut r = cat3(filedir, "\\", stem);
        r.append("_");
        r.append(unpacked_suffix);
        r
    }
}

/// `GetLastOutdir()` (UniExtract.au3:872-878) — the newest entry of
/// the directory history (ini key `"0"`); `None` when there is no history
/// yet, where the source shows a message and terminates silently.
pub fn get_last_outdir(history_dir_slot0: Option<&str>) -> (r: Option<String>)
    ensures
        match history_dir_slot0 {
            Some(s) => r is Some && r->0@ == s@,
            None => r is None,
        },
{
    match history_dir_slot0 {
        Some(s) => Some(owned(s)),
        None => None,
    }
}

// ---------------------------------------------------------------------
// Output directory validation
// ---------------------------------------------------------------------
/// The number of bytes `c` takes in UTF-8.
pub open spec fn utf8_width(c: char) -> nat {
    let u = c as u32;
    if u < 0x80 {
        1
    } else if u < 0x800 {
        2
    } else if u < 0x10000 {
        3
    } else {
        4
    }
}

/// The characters that make up the first `min(byte_len, 2)` UTF-8 bytes
/// of `s` (`&s[..s.len().min(2)]`); `None` when that byte count falls
/// inside a character, where the slice panics.
pub open spec fn drive_prefix(s: Seq<char>) -> Option<Seq<char>> {
    if s.len() == 0 {
        Some(s)
    } else if utf8_width(s[0]) == 2 {
        Some(s.take(1))
    } else if utf8_width(s[0]) > 2 {
        None
    } else if s.len() == 1 {
        Some(s)
    } else if utf8_width(s[1]) == 1 {
        Some(s.take(2))
    } else {
        None
    }
}

/// `s` starts with one backslash but not two.
pub open spec fn root_relative(s: Seq<char>) -> bool {
    s.len() > 0 && s[0] == '\\' && !unc(s)
}

/// `outdir` is a `/sub` or `/last` token.
pub open spec fn is_token(outdir: Seq<char>) -> bool {
    eq_ignore_ascii_case(outdir, "/sub"@) || eq_ignore_ascii_case(outdir, "/last"@)
}

/// The output directory takes the input file's drive letter.
pub open spec fn takes_drive_letter(outdir: Seq<char>) -> bool {
    !is_token(outdir) && !drive_absolute(outdir) && root_relative(outdir)
}

/// The directory `outdir` resolves to, before its trailing separator is
/// normalized.
pub open spec fn resolved_base(
    outdir: Seq<char>,
    initoutdir: Seq<char>,
    filedir: Seq<char>,
    last_outdir: Option<Seq<char>>,
) -> Seq<char> {
    if eq_ignore_ascii_case(outdir, "/sub"@) {
        initoutdir
    } else if eq_ignore_ascii_case(outdir, "/last"@) {
        match last_outdir {
            Some(l) => l,
            None => Seq::empty(),
        }
    } else if drive_absolute(outdir) {
        outdir
    } else if root_relative(outdir) {
        drive_prefix(filedir).unwrap() + outdir
    } else if !unc(outdir) {
        filedir + "\\"@ + outdir
    } else {
        outdir
    }
}

/// `s` with one trailing `/` removed, then a `\` appended unless it
/// already ends with one.
pub open spec fn with_trailing_backslash(s: Seq<char>) -> Seq<char> {
    let t = if s.len() > 0 && s.last() == '/' {
        s.drop_last()
    } else {
        s
    };
    if t.len() > 0 && t.last() == '\\' {
        t
    } else {
        t.push('\\')
    }
}

/// What `ValidateOutputDirectory()` resolves `outdir` to.
pub open spec fn resolved_output_directory(
    outdir: Seq<char>,
    initoutdir: Seq<char>,
    filedir: Seq<char>,
    last_outdir: Option<Seq<char>>,
) -> Seq<char> {
    with_trailing_backslash(resolved_base(outdir, initoutdir, filedir, last_outdir))
}

/// The characters of `&s[..s.len().min(2)]`.
fn drive_prefix_of(filedir: &str) -> (r: String)
    requires
        drive_prefix(filedir@) is Some,
    ensures
        r@ == drive_prefix(filedir@).unwrap(),
{
    let v = chars_of(filedir);
    if v.len() == 0 {
        return owned(filedir);
    }
    let w0 = v[0] as u32;
    if 0x80 <= w0 && w0 < 0x800 {
        return string_from_range(&v, 0, 1);
    }
    if v.len() == 1 {
        return owned(filedir);
    }
    string_from_range(&v, 0, 2)
}

/// `ValidateOutputDirectory()` (UniExtract.au3:526-544).
///
/// - `/sub` (any ASCII case) resolves to `initoutdir`;
/// - `/last` resolves to `last_outdir` (empty when there is none);
/// - drive-absolute (`X:...`) and UNC (`\\...`) paths stay as they are;
/// - a single leading backslash takes the input file's drive letter (the
///   first two bytes of `filedir`);
/// - anything else is joined onto `filedir` with a backslash;
/// - finally one trailing `/` is dropped and a `\` appended unless the
///   path already ends with one.
///
/// Taking the drive letter slices `filedir` at byte 2, which panics when
/// that falls inside a character; such inputs are left out.
pub fn resolve_output_directory(
    outdir: &str,
    initoutdir: &str,
    filedir: &str,
    last_outdir: Option<&str>,
) -> (r: String)
    requires
        takes_drive_letter(outdir@) ==> drive_prefix(filedir@) is Some,
    ensures
        r@ == resolved_output_directory(
            outdir@,
            initoutdir@,
            filedir@,
            match last_outdir {
                Some(l) => Some(l@),
                None => None,
            },
        ),
{
    let ghost lv = match last_outdir {
        Some(l) => Some(l@),
        None => None::<Seq<char>>,
    };
    let base: String = if str_eq_ignore_ascii_case(outdir, "/sub") {
        owned(initoutdir)
    } else if str_eq_ignore_ascii_case(outdir, "/last") {
        match last_outdir {
            Some(l) => owned(l),
            None => String::new(),
        }
    } else if is_drive_absolute(outdir) {
        owned(outdir)
    } else {
        let ov = chars_of(outdir);
        let unc_out = is_unc(outdir);
        if ov.len() > 0 && ov[0] == '\\' && !unc_out {
            let prefix = drive_prefix_of(filedir);
            cat2(prefix.as_str(), outdir)
        } else if !unc_out {
            cat3(filedir, "\\", outdir)
        } else {
            owned(outdir)
        }
    };
    assert(base@ == resolved_base(outdir@, initoutdir@, filedir@, lv));
    let mut v = chars_of(base.as_str());
    if v.len() > 0 && v[v.len() - 1] == '/' {
        v.pop();
    }
    if !(v.len() > 0 && v[v.len() - 1] == '\\') {
        v.push('\\');
    }
    string_from_chars(&v)
}

/// Whether `&filedir[..filedir.len().min(2)]` can be taken: the byte
/// count does not fall inside a character.
fn has_drive_prefix(filedir: &str) -> (r: bool)
    ensures
        r == drive_prefix(filedir@) is Some,
{
    let v = chars_of(filedir);
    if v.len() == 0 {
        return true;
    }
    let w0 = v[0] as u32;
    if w0 >= 0x80 {
        return w0 < 0x800;
    }
    if v.len() == 1 {
        return true;
    }
    (v[1] as u32) < 0x80
}

/// [`resolve_output_directory`] for every input: `None` exactly where
/// taking the input file's drive letter would slice `filedir` inside a
/// character (where `ValidateOutputDirectory()`'s slice panics).
pub fn try_resolve_output_directory(
    outdir: &str,
    initoutdir: &str,
    filedir: &str,
    last_outdir: Option<&str>,
) -> (r: Option<String>)
    ensures
        match r {
            Some(d) => d@ == resolved_output_directory(
                outdir@,
                initoutdir@,
                filedir@,
                match last_outdir {
                    Some(l) => Some(l@),
                    None => None,
                },
            ),
            None => takes_drive_letter(outdir@) && drive_prefix(filedir@) is None,
        },
{
    let token = str_eq_ignore_ascii_case(outdir, "/sub") || str_eq_ignore_ascii_case(outdir, "/last");
    let ov = chars_of(outdir);
    let takes = !token && !is_drive_absolute(outdir) && ov.len() > 0 && ov[0] == '\\' && !is_unc(outdir);
    if takes && !has_drive_prefix(filedir) {
        return None;
    }
    Some(resolve_output_directory(outdir, initoutdir, filedir, last_outdir))
}

/// the trailing-backslash strip at the start of `extract()`
/// (UniExtract.au3:2278): one trailing `\` is removed, with no drive-root
/// special case (`C:\` becomes `C:`).
pub fn strip_trailing_backslash_for_extraction(outdir: &str) -> (r: String)
    ensures
        r@ == (if outdir@.len() > 0 && outdir@.last() == '\\' {
            outdir@.drop_last()
        } else {
            outdir@
        }),
{
    let v = chars_of(outdir);
    if v.len() > 0 && v[v.len() - 1] == '\\' {
        string_from_range(&v, 0, v.len() - 1)
    } else {
        owned(outdir)
    }
}

/// the unconditional trailing-backslash re-append at the end of
/// `extract()` (UniExtract.au3:3413: `$outdir &= "\"`).
pub fn reappend_trailing_backslash_after_extraction(outdir: &str) -> (r: String)
    ensures
        r@ == outdir@ + "\\"@,
{
    cat2(outdir, "\\")
}

// ---------------------------------------------------------------------
// Output directory creation and cleanup
// ---------------------------------------------------------------------
/// the result of `CreateOutdir()`'s decision tree.
#[derive(Debug, Clone, Copy, PartialEq, Eq, Structural)]
pub enum OutdirOutcome {
    /// Already existed as a writable directory — nothing to do.
    AlreadyValid,
    /// Did not exist and `DirCreate` succeeded (`$createdir = True`).
    Created,
    /// Exists but is not a directory (terminates with `InvalidDir`).
    ExistsButNotADirectory,
    /// Exists as a directory but is not writable (terminates).
    ExistsButNotAccessible,
    /// Did not exist and `DirCreate` failed (terminates).
    CreateFailed,
}

impl OutdirOutcome {
    /// Whether this outcome is one of `CreateOutdir()`'s three
    /// `terminate($STATUS_INVALIDDIR, ...)` calls.
    pub fn is_fatal(self) -> (r: bool)
        ensures
            r == !(self == OutdirOutcome::AlreadyValid || self == OutdirOutcome::Created),
    {
        match self {
            OutdirOutcome::AlreadyValid | OutdirOutcome::Created => false,
            _ => true,
        }
    }
}

/// `CreateOutdir()` (UniExtract.au3:3968-3978) over the already
/// known filesystem facts. `dir_create_succeeded` is ignored when the
/// directory exists.
pub fn decide_outdir_outcome(
    exists: bool,
    is_directory: bool,
    can_access: bool,
    dir_create_succeeded: bool,
) -> (r: OutdirOutcome)
    ensures
        r == (if exists {
            if !is_directory {
                OutdirOutcome::ExistsButNotADirectory
            } else if !can_access {
                OutdirOutcome::ExistsButNotAccessible
            } else {
                OutdirOutcome::AlreadyValid
            }
        } else if dir_create_succeeded {
            OutdirOutcome::Created
        } else {
            OutdirOutcome::CreateFailed
        }),
{
    if exists {
        if !is_directory {
            OutdirOutcome::ExistsButNotADirectory
        } else if !can_access {
            OutdirOutcome::ExistsButNotAccessible
        } else {
            OutdirOutcome::AlreadyValid
        }
    } else if dir_create_succeeded {
        OutdirOutcome::Created
    } else {
        OutdirOutcome::CreateFailed
    }
}

/// the empty-output-directory cleanup in `terminate()`
/// (UniExtract.au3:4224): only a directory this run created, only when
/// the run did not succeed, and only while it is still empty.
pub fn should_remove_empty_created_outdir(created_dir: bool, status: Status, dir_is_empty: bool) -> (r: bool)
    ensures
        r == (created_dir && status != Status::Success && dir_is_empty),
{
    created_dir && status != Status::Success && dir_is_empty
}

/// Whether an output-directory argument is the `/last` token (any case).
pub fn is_last_outdir_token(outdir_arg: &str) -> (r: bool)
    ensures
        r == eq_ignore_ascii_case(outdir_arg@, "/last"@),
{
    str_eq_ignore_ascii_case(outdir_arg, "/last")
}

/// The message the command line reports for a fatal `CreateOutdir()`
/// outcome on `dir` (the resolved directory without its trailing
/// backslash); `None` for the two outcomes that go on.
pub open spec fn outdir_failure(outcome: OutdirOutcome, dir: Seq<char>) -> Option<Seq<char>> {
    match outcome {
        OutdirOutcome::ExistsButNotADirectory => Some(dir + " exists but is not a directory"@),
        OutdirOutcome::ExistsButNotAccessible => Some(dir + " exists but is not accessible"@),
        OutdirOutcome::CreateFailed => Some("failed to create "@ + dir),
        _ => None,
    }
}

/// The command line's message for a fatal output-directory outcome.
pub fn outdir_failure_message(outcome: OutdirOutcome, dir: &str) -> (r: Option<String>)
    ensures
        match r {
            Some(m) => outdir_failure(outcome, dir@) == Some(m@),
            None => outdir_failure(outcome, dir@) is None,
        },
{
    match outcome {
        OutdirOutcome::ExistsButNotADirectory => Some(cat2(dir, " exists but is not a directory")),
        OutdirOutcome::ExistsButNotAccessible => Some(cat2(dir, " exists but is not accessible")),
        OutdirOutcome::CreateFailed => Some(cat2("failed to create ", dir)),
        _ => None,
    }
}

// ---------------------------------------------------------------------
// File path splitting
// ---------------------------------------------------------------------
/// `(dir, filename)`: `file` split at its last backslash, or an empty
/// directory when it has none.
pub open spec fn split_dir(file: Seq<char>) -> (Seq<char>, Seq<char>) {
    match last_index_of(file, '\\') {
        Some(i) => (file.take(i), file.skip(i + 1)),
        None => (Seq::empty(), file),
    }
}

/// `(dir, stem, has_extension)` for `file`: the stem is the filename
/// with only its last `.`-delimited extension trimmed, and a filename
/// whose only `.` is its first character has no extension.
pub open spec fn split_path(file: Seq<char>) -> (Seq<char>, Seq<char>, bool) {
    let (dir, name) = split_dir(file);
    match last_index_of(name, '.') {
        Some(j) => if j > 0 {
            (dir, name.take(j), true)
        } else {
            (dir, name, false)
        },
        None => (dir, name, false),
    }
}

/// Splits a Windows file path into `(dir, stem, has_extension)`, the
/// inputs [`default_output_subfolder`] expects. Splits on `\` directly,
/// since this program's paths are always Windows paths.
pub fn split_file_path(file: &str) -> (r: (String, String, bool))
    ensures
        (r.0@, r.1@, r.2) == split_path(file@),
{
    let v = chars_of(file);
    let (dir, name) = match rfind_char(&v, '\\') {
        Some(i) => (string_from_range(&v, 0, i), string_from_range(&v, i + 1, v.len())),
        None => (String::new(), owned(file)),
    };
    proof {
        crate::text::lemma_last_index_of(file@, '\\');
    }
    assert((dir@, name@) == split_dir(file@));
    let nv = chars_of(name.as_str());
    match rfind_char(&nv, '.') {
        Some(j) => {
            if j > 0 {
                (dir, string_from_range(&nv, 0, j), true)
            } else {
                (dir, name, false)
            }
        },
        None => (dir, name, false),
    }
}

// ---------------------------------------------------------------------
// Laws
// ---------------------------------------------------------------------
/// Every resolved output directory ends with a backslash.
pub proof fn lemma_resolved_output_directory_ends_with_backslash(
    outdir: Seq<char>,
    initoutdir: Seq<char>,
    filedir: Seq<char>,
    last_outdir: Option<Seq<char>>,
)
    ensures
        resolved_output_directory(outdir, initoutdir, filedir, last_outdir).len() > 0,
        resolved_output_directory(outdir, initoutdir, filedir, last_outdir).last() == '\\',
{
}

/// Stripping the trailing backslash for extraction and re-appending it
/// afterwards gives back the directory `ValidateOutputDirectory()`
/// resolved.
pub proof fn lemma_strip_then_reappend_restores_resolved(
    outdir: Seq<char>,
    initoutdir: Seq<char>,
    filedir: Seq<char>,
    last_outdir: Option<Seq<char>>,
)
    ensures
        ({
            let d = resolved_output_directory(outdir, initoutdir, filedir, last_outdir);
            d.drop_last() + "\\"@ == d
        }),
{
    let d = resolved_output_directory(outdir, initoutdir, filedir, last_outdir);
    reveal_strlit("\\");
    assert(d.drop_last() + "\\"@ =~= d);
}

} // verus!
