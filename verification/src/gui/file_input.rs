//! File and directory input, validation and output-directory auto-fill
//!: `GUI_File`, `GUI_Directory`, `GUI_OnFileInputChanged`,
//! `GUI_OK`, `GUI_OK_Set` and `GUI_Drop_Parse` (UniExtract.au3:6264-6303,
//! 6555-6585, 6735-6756).
use vstd::prelude::*;
use crate::extract::cat3;
use crate::outdir::{default_output_subfolder, default_subfolder, split_dir, split_file_path, split_path};
use crate::text::{
    chars_of, is_blank_str, last_index_of, lowercase, owned, rfind_char, split_chars, split_on,
    string_from_range, to_lower, trim, views,
};

verus! {

/// `FilenameParse`'s whitespace gate (UniExtract.au3:501,
/// `StringIsSpace($f)`): true for an empty or whitespace-only string.
pub fn is_blank(text: &str) -> (r: bool)
    ensures
        r == (trim(text@).len() == 0),
{
    is_blank_str(text)
}

/// The globals `FilenameParse` sets (UniExtract.au3:503-518), returned as
/// a value. The caller supplies the already-resolved full path.
#[derive(Debug, Clone, PartialEq)]
pub struct ParsedFilename {
    pub filedir: String,
    pub filename: String,
    pub fileext: String,
    pub filenamefull: String,
    pub initoutdir: String,
}

/// The extension of `file`'s filename, before lowercasing: what follows
/// its last `.`, when [`split_path`] finds an extension.
pub open spec fn raw_extension(file: Seq<char>) -> Seq<char> {
    let name = split_dir(file).1;
    match last_index_of(name, '.') {
        Some(j) => name.skip(j + 1),
        None => Seq::empty(),
    }
}

fn file_name_part(file: &str) -> (r: String)
    ensures
        r@ == split_dir(file@).1,
{
    let v = chars_of(file);
    proof {
        crate::text::lemma_last_index_of(file@, '\\');
    }
    match rfind_char(&v, '\\') {
        Some(i) => string_from_range(&v, i + 1, v.len()),
        None => owned(file),
    }
}

/// `FilenameParse`'s parsing half (UniExtract.au3:503-518): directory,
/// stem, lowercased extension (Unicode lowercasing, as `to_lowercase`),
/// full filename, and `$initoutdir` as [`default_output_subfolder`]
/// computes it with the `unpacked` suffix.
pub fn parse_filename(resolved_full_path: &str, initoutdir_collision: bool) -> (r: ParsedFilename)
    ensures
        r.filedir@ == split_path(resolved_full_path@).0,
        r.filename@ == split_path(resolved_full_path@).1,
        r.fileext@ == (if split_path(resolved_full_path@).2 {
            lowercase(raw_extension(resolved_full_path@))
        } else {
            Seq::<char>::empty()
        }),
        r.filenamefull@ == split_dir(resolved_full_path@).1,
        r.initoutdir@ == default_subfolder(
            split_path(resolved_full_path@).0,
            split_path(resolved_full_path@).1,
            split_path(resolved_full_path@).2,
            initoutdir_collision,
            "unpacked"@,
        ),
{
    let (filedir, stem, has_extension) = split_file_path(resolved_full_path);
    let filename_part = file_name_part(resolved_full_path);
    let fileext = if has_extension {
        let nv = chars_of(filename_part.as_str());
        proof {
            crate::text::lemma_last_index_of(filename_part@, '.');
        }
        match rfind_char(&nv, '.') {
            Some(j) => {
                let e = string_from_range(&nv, j + 1, nv.len());
                assert(e@ =~= raw_extension(resolved_full_path@));
                to_lower(e.as_str())
            },
            None => String::new(),
        }
    } else {
        String::new()
    };
    let initoutdir = default_output_subfolder(
        filedir.as_str(),
        stem.as_str(),
        has_extension,
        initoutdir_collision,
        "unpacked",
    );
    ParsedFilename {
        filedir,
        filename: stem,
        fileext,
        filenamefull: filename_part,
        initoutdir,
    }
}

/// What clicking OK should do (`GUI_OK`/`GUI_OK_Set`, UniExtract.au3:
/// 6563-6582): invalid input never closes the window.
#[derive(Debug, Clone, PartialEq)]
pub enum OkOutcome {
    /// `FilenameParse` failed: a blank field or a file that does not
    /// exist.
    Invalid,
    /// Ready to commit and close, with `$outdir` resolved (the `/sub`
    /// sentinel when the directory field was left blank).
    Valid { outdir: String },
}

/// `GUI_OK_Set` (UniExtract.au3:6571-6582): invalid when the file field
/// is blank or the file does not exist; otherwise `$outdir` is the
/// directory field, or `/sub` when it is empty.
pub fn decide_ok_set(file_field_blank: bool, file_exists: bool, directory_field: &str) -> (r: OkOutcome)
    ensures
        match r {
            OkOutcome::Invalid => file_field_blank || !file_exists,
            OkOutcome::Valid { outdir } => !file_field_blank && file_exists && outdir@ == (if directory_field@.len() == 0 {
                "/sub"@
            } else {
                directory_field@
            }),
        },
{
    if file_field_blank || !file_exists {
        return OkOutcome::Invalid;
    }
    let outdir = if directory_field.is_empty() {
        owned("/sub")
    } else {
        owned(directory_field)
    };
    OkOutcome::Valid { outdir }
}

/// `GUI_OnFileInputChanged`'s auto-fill gate (UniExtract.au3:6555-6560):
/// only when the directory field is blank, with no lock check.
pub fn should_auto_fill_on_file_input_changed(directory_field_blank: bool) -> (r: bool)
    ensures
        r == directory_field_blank,
{
    directory_field_blank
}

/// `GUI_Drop_Parse`'s auto-fill gate (UniExtract.au3:6743): the
/// directory field is overwritten when it is blank *or* the "lock output
/// directory" option is off; only a non-empty locked field is kept.
pub fn should_auto_fill_output_dir(directory_field_blank: bool, lock_output_directory: bool) -> (r: bool)
    ensures
        r == (directory_field_blank || !lock_output_directory),
{
    directory_field_blank || !lock_output_directory
}

/// The full paths a `FileOpenDialog` result names (UniExtract.au3:6264-
/// 6277): nothing for an empty (cancelled) result, the result itself
/// when it holds no `|`, else `dir|file1|file2|...` with `dir\` put
/// before each file.
pub open spec fn dialog_paths(raw: Seq<char>) -> Seq<Seq<char>> {
    let parts = split_on(raw, '|');
    if raw.len() == 0 {
        Seq::empty()
    } else if parts.len() == 1 {
        seq![parts[0]]
    } else {
        parts.skip(1).map_values(|f: Seq<char>| parts[0] + "\\"@ + f)
    }
}

/// `GUI_File`'s multi-select parsing (UniExtract.au3:6264-6277).
pub fn parse_file_dialog_result(raw: &str) -> (r: Vec<String>)
    ensures
        views(r@) == dialog_paths(raw@),
{
    let cs = chars_of(raw);
    let parts = split_chars(&cs, '|');
    let ghost ps = views(parts@);
    if cs.len() == 0 {
        let r: Vec<String> = Vec::new();
        assert(views(r@) =~= Seq::<Seq<char>>::empty());
        return r;
    }
    proof {
        crate::text::lemma_split_on_nonempty(raw@, '|');
    }
    if parts.len() == 1 {
        let r = vec![parts[0].clone()];
        assert(views(r@) =~= seq![ps[0]]);
        return r;
    }
    let mut r: Vec<String> = Vec::new();
    let mut i: usize = 1;
    assert(views(r@) =~= ps.skip(1).take(0).map_values(|f: Seq<char>| ps[0] + "\\"@ + f));
    while i < parts.len()
        invariant
            1 <= i <= parts.len(),
            ps == views(parts@),
            views(r@) == ps.skip(1).take(i - 1).map_values(|f: Seq<char>| ps[0] + "\\"@ + f),
        decreases parts.len() - i,
    {
        let p = cat3(parts[0].as_str(), "\\", parts[i].as_str());
        assert(ps[0] == parts@[0]@);
        assert(ps[i as int] == parts@[i as int]@);
        let ghost prev = r@;
        r.push(p);
        assert(views(r@) =~= views(prev).push(p@));
        assert(views(r@) =~= ps.skip(1).take(i as int).map_values(|f: Seq<char>| ps[0] + "\\"@ + f));
        i += 1;
    }
    assert(ps.skip(1).take(parts.len() - 1) =~= ps.skip(1));
    r
}

/// The seed directory of `GUI_Directory`'s folder picker
/// (UniExtract.au3:6286-6290).
pub open spec fn folder_picker_seed(
    current_dir_field: Seq<char>,
    current_dir_exists: bool,
    file_field: Seq<char>,
    file_field_exists: bool,
) -> Seq<char> {
    if current_dir_exists {
        current_dir_field
    } else if file_field_exists {
        match last_index_of(file_field, '\\') {
            Some(i) => file_field.take(i),
            None => Seq::empty(),
        }
    } else {
        Seq::empty()
    }
}

/// `GUI_Directory`'s seed derivation (UniExtract.au3:6286-6290): the
/// current directory field when it exists, else the file field's parent
/// directory when the file exists, else empty (browse from the default).
pub fn resolve_folder_picker_seed(
    current_dir_field: &str,
    current_dir_exists: bool,
    file_field: &str,
    file_field_exists: bool,
) -> (r: String)
    ensures
        r@ == folder_picker_seed(current_dir_field@, current_dir_exists, file_field@, file_field_exists),
{
    if current_dir_exists {
        return owned(current_dir_field);
    }
    if file_field_exists {
        let v = chars_of(file_field);
        if let Some(idx) = rfind_char(&v, '\\') {
            proof {
                crate::text::lemma_last_index_of(file_field@, '\\');
            }
            return string_from_range(&v, 0, idx);
        }
    }
    String::new()
}

} // verus!
