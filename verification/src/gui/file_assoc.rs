//! File-association registration: the decisions inside
//! `GUI_ContextMenu_fileassoc` (UniExtract.au3:7237-7273),
//! `_ShellFile_Install` (UniExtract.au3:7278-7292) and
//! `_ShellFile_Uninstall` (UniExtract.au3:7297-7306), as write and
//! removal plans for a caller to execute against the registry.
use vstd::prelude::*;
use vstd::string::*;
use crate::extract::{cat2, cat3};
use crate::text::{
    chars_of, first_index_of, is_ws, lemma_first_index_of, lemma_first_index_of_is, lemma_first_index_of_none,
    lemma_trim_end_is, lemma_trim_ends, lemma_trim_start_is, owned, split_chars, split_on, trim, trim_end,
    trim_start, trim_str, views,
};

verus! {

/// `file_type` without one leading `.`, as both `_ShellFile_Install`
/// (UniExtract.au3:7280) and `_ShellFile_Uninstall` (UniExtract.au3:7299)
/// strip it.
pub open spec fn without_leading_dot(s: Seq<char>) -> Seq<char> {
    if s.len() > 0 && s[0] == '.' {
        s.drop_first()
    } else {
        s
    }
}

/// The trimmed, non-empty pieces of `pieces`, in order.
pub open spec fn nonempty_trimmed(pieces: Seq<Seq<char>>) -> Seq<Seq<char>>
    decreases pieces.len(),
{
    if pieces.len() == 0 {
        Seq::empty()
    } else {
        let t = trim(pieces.last());
        nonempty_trimmed(pieces.drop_last()) + if t.len() > 0 {
            seq![t]
        } else {
            Seq::empty()
        }
    }
}

/// The extension list `raw` names: `StringSplit(raw, ",")`, each entry
/// trimmed, empty entries dropped.
pub open spec fn extension_list(raw: Seq<char>) -> Seq<Seq<char>> {
    nonempty_trimmed(split_on(raw, ','))
}

/// Strips one leading `.` from `file_type`.
pub fn strip_leading_dot(file_type: &str) -> (r: &str)
    ensures
        r@ == without_leading_dot(file_type@),
{
    let n = file_type.unicode_len();
    if n > 0 && file_type.get_char(0) == '.' {
        let r = file_type.substring_char(1, n);
        assert(r@ =~= file_type@.drop_first());
        r
    } else {
        file_type
    }
}

/// Parses a comma-separated extension list (UniExtract.au3:7241-7244 and
/// 7263-7267): split at `,`, trim each entry, drop the empty ones.
pub fn parse_extension_list(raw: &str) -> (r: Vec<String>)
    ensures
        views(r@) == extension_list(raw@),
{
    let cs = chars_of(raw);
    let pieces = split_chars(&cs, ',');
    let ghost ps = views(pieces@);
    let mut r: Vec<String> = Vec::new();
    let mut i: usize = 0;
    assert(ps.take(0) =~= Seq::<Seq<char>>::empty());
    assert(views(r@) =~= Seq::<Seq<char>>::empty());
    while i < pieces.len()
        invariant
            i <= pieces.len(),
            ps == views(pieces@),
            ps == split_on(raw@, ','),
            views(r@) == nonempty_trimmed(ps.take(i as int)),
        decreases pieces.len() - i,
    {
        let t = trim_str(pieces[i].as_str());
        assert(ps.take(i + 1).drop_last() =~= ps.take(i as int));
        assert(ps.take(i + 1).last() == pieces@[i as int]@);
        if t.unicode_len() > 0 {
            let ghost prev = r@;
            r.push(t);
            assert(views(r@) =~= views(prev) + seq![trim(ps[i as int])]);
        }
        i += 1;
    }
    assert(ps.take(pieces.len() as int) =~= ps);
    r
}

/// The registry root for the chosen scope (UniExtract.au3:7238 and
/// 7254-7260): `HKLM` for all users, `HKCU` for the current one.
pub fn resolve_registry_scope(all_users: bool) -> (r: &'static str)
    ensures
        r@ == (if all_users {
            "HKLM"@
        } else {
            "HKCU"@
        }),
{
    if all_users {
        "HKLM"
    } else {
        "HKCU"
    }
}

/// `_ShellFile_Uninstall`'s existence gate (UniExtract.au3:7301-7302):
/// an extension is unregistered only when its ProgID lookup found one.
pub fn should_remove_association(existing_progid: Option<&str>) -> (r: bool)
    ensures
        r == existing_progid.is_some(),
{
    existing_progid.is_some()
}

/// The type of one planned registry value: `REG_SZ` or `REG_EXPAND_SZ`.
#[derive(Debug, Clone, PartialEq, Eq)]
pub enum RegistryValueKind {
    Str(String),
    ExpandStr(String),
}

/// One planned write: `RegWrite($key, $value_name, "REG_SZ"|"REG_EXPAND_SZ", $value)`.
#[derive(Debug, Clone, PartialEq, Eq)]
pub struct FileAssocWrite {
    pub key: String,
    pub value_name: String,
    pub value: RegistryValueKind,
}

/// A write's view: key, value name, whether the value is `REG_EXPAND_SZ`,
/// and the value text.
pub type AssocWriteView = (Seq<char>, Seq<char>, bool, Seq<char>);

/// The view of one write.
pub open spec fn assoc_write_view(w: FileAssocWrite) -> AssocWriteView {
    match w.value {
        RegistryValueKind::Str(v) => (w.key@, w.value_name@, false, v@),
        RegistryValueKind::ExpandStr(v) => (w.key@, w.value_name@, true, v@),
    }
}

/// The views of a list of writes.
pub open spec fn assoc_writes_view(v: Seq<FileAssocWrite>) -> Seq<AssocWriteView> {
    v.map_values(|w: FileAssocWrite| assoc_write_view(w))
}

/// The eight writes of `_ShellFile_Install` (UniExtract.au3:7282-7289),
/// in order.
pub open spec fn install_writes(
    registry_key: Seq<char>,
    file_type: Seq<char>,
    prog_id: Seq<char>,
    display_text: Seq<char>,
    script_path: Seq<char>,
) -> Seq<AssocWriteView> {
    let command = "\""@ + script_path + "\" \"%1\""@;
    let icon = script_path + ",0"@;
    let prog = registry_key + prog_id;
    seq![
        (registry_key + "."@ + without_leading_dot(file_type), ""@, false, prog_id),
        (prog + "\\DefaultIcon\\"@, ""@, false, icon),
        (prog + "\\shell\\open"@, ""@, false, display_text),
        (prog + "\\shell\\open"@, "Icon"@, true, icon),
        (prog + "\\shell\\open\\command\\"@, ""@, false, command),
        (prog, ""@, false, display_text),
        (prog, "Icon"@, true, icon),
        (prog + "\\command"@, ""@, false, command),
    ]
}

fn assoc_write(key: String, value_name: &str, expand: bool, value: String) -> (r: FileAssocWrite)
    ensures
        assoc_write_view(r) == (key@, value_name@, expand, value@),
{
    FileAssocWrite {
        key,
        value_name: owned(value_name),
        value: if expand {
            RegistryValueKind::ExpandStr(value)
        } else {
            RegistryValueKind::Str(value)
        },
    }
}

/// `_ShellFile_Install`'s write sequence (UniExtract.au3:7282-7289),
/// exactly and in order: the extension-to-ProgID mapping, the ProgID's
/// icon and `shell\open` entries, then a second copy of the display text,
/// icon and command directly under the ProgID key.
pub fn build_install_writes(
    registry_key: &str,
    file_type: &str,
    prog_id: &str,
    display_text: &str,
    script_path: &str,
) -> (r: Vec<FileAssocWrite>)
    ensures
        assoc_writes_view(r@) == install_writes(
            registry_key@,
            file_type@,
            prog_id@,
            display_text@,
            script_path@,
        ),
{
    let ft = strip_leading_dot(file_type);
    let command = cat3("\"", script_path, "\" \"%1\"");
    let icon = cat2(script_path, ",0");
    let prog = cat2(registry_key, prog_id);
    let mut ext_key = cat2(registry_key, ".");
    ext_key.append(ft);
    let w0 = assoc_write(ext_key, "", false, owned(prog_id));
    let w1 = assoc_write(cat2(prog.as_str(), "\\DefaultIcon\\"), "", false, icon.clone());
    let w2 = assoc_write(cat2(prog.as_str(), "\\shell\\open"), "", false, owned(display_text));
    let w3 = assoc_write(cat2(prog.as_str(), "\\shell\\open"), "Icon", true, icon.clone());
    let w4 = assoc_write(
        cat2(prog.as_str(), "\\shell\\open\\command\\"),
        "",
        false,
        command.clone(),
    );
    let w5 = assoc_write(prog.clone(), "", false, owned(display_text));
    let w6 = assoc_write(prog.clone(), "Icon", true, icon);
    let w7 = assoc_write(cat2(prog.as_str(), "\\command"), "", false, command);
    let r = vec![w0, w1, w2, w3, w4, w5, w6, w7];
    assert(assoc_writes_view(r@) =~= install_writes(
        registry_key@,
        file_type@,
        prog_id@,
        display_text@,
        script_path@,
    ));
    r
}

/// What `GUI_ContextMenu_fileassoc($bEnable)` does (UniExtract.au3:7237-
/// 7273): the previously stored extensions are always unregistered; only
/// when enabling is a fresh install planned, from the current field and
/// checkbox. On disable the stored `addassoc`/`addassocallusers` values
/// are left as they were.
#[derive(Debug, Clone, PartialEq, Eq)]
pub struct FileAssocApplyPlan {
    pub extensions_to_uninstall: Vec<String>,
    pub new_addassocenabled: bool,
    /// `Some((new_extensions, new_all_users))` only when enabling.
    pub install: Option<(Vec<String>, bool)>,
}

/// `GUI_ContextMenu_fileassoc`'s top-level dispatch
/// (UniExtract.au3:7237-7273).
pub fn resolve_file_assoc_apply_plan(
    enable: bool,
    old_extension_list: &str,
    new_extension_list: &str,
    new_all_users_checked: bool,
) -> (r: FileAssocApplyPlan)
    ensures
        views(r.extensions_to_uninstall@) == extension_list(old_extension_list@),
        r.new_addassocenabled == enable,
        match r.install {
            Some((exts, all_users)) => enable && views(exts@) == extension_list(
                new_extension_list@,
            ) && all_users == new_all_users_checked,
            None => !enable,
        },
{
    let install = if enable {
        Some((parse_extension_list(new_extension_list), new_all_users_checked))
    } else {
        None
    };
    FileAssocApplyPlan {
        extensions_to_uninstall: parse_extension_list(old_extension_list),
        new_addassocenabled: enable,
        install,
    }
}

/// Every extension [`parse_extension_list`] yields is non-empty and
/// neither begins nor ends with whitespace.
pub proof fn lemma_extension_list_entries_are_trimmed(raw: Seq<char>)
    ensures
        forall|k: int|
            0 <= k < extension_list(raw).len() ==> {
                let e = #[trigger] extension_list(raw)[k];
                e.len() > 0 && !is_ws(e[0]) && !is_ws(e.last())
            },
{
    lemma_nonempty_trimmed_clean(split_on(raw, ','));
}

proof fn lemma_nonempty_trimmed_clean(pieces: Seq<Seq<char>>)
    ensures
        forall|k: int|
            0 <= k < nonempty_trimmed(pieces).len() ==> {
                let e = #[trigger] nonempty_trimmed(pieces)[k];
                e.len() > 0 && !is_ws(e[0]) && !is_ws(e.last())
            },
    decreases pieces.len(),
{
    if pieces.len() > 0 {
        lemma_nonempty_trimmed_clean(pieces.drop_last());
        lemma_trim_ends(pieces.last());
        let prev = nonempty_trimmed(pieces.drop_last());
        assert forall|k: int| 0 <= k < nonempty_trimmed(pieces).len() implies {
            let e = #[trigger] nonempty_trimmed(pieces)[k];
            e.len() > 0 && !is_ws(e[0]) && !is_ws(e.last())
        } by {
            if k < prev.len() {
                assert(nonempty_trimmed(pieces)[k] == prev[k]);
            }
        }
    }
}

/// `parts` joined with `sep` between neighbours, as `join` on a list of
/// strings does.
pub open spec fn joined(parts: Seq<Seq<char>>, sep: char) -> Seq<char>
    decreases parts.len(),
{
    if parts.len() == 0 {
        Seq::empty()
    } else if parts.len() == 1 {
        parts[0]
    } else {
        parts[0].push(sep) + joined(parts.drop_first(), sep)
    }
}

proof fn lemma_split_pieces_lack_sep(s: Seq<char>, sep: char)
    ensures
        forall|k: int| 0 <= k < split_on(s, sep).len() ==> !(#[trigger] split_on(s, sep)[k]).contains(sep),
    decreases s.len(),
{
    lemma_first_index_of(s, sep);
    match first_index_of(s, sep) {
        Some(i) => {
            if 0 <= i < s.len() {
                lemma_split_pieces_lack_sep(s.skip(i + 1), sep);
                let rest = split_on(s.skip(i + 1), sep);
                assert forall|k: int| 0 <= k < split_on(s, sep).len() implies !(
                #[trigger] split_on(s, sep)[k]).contains(sep) by {
                    if k == 0 {
                        assert(split_on(s, sep)[0] == s.take(i));
                        if s.take(i).contains(sep) {
                            let j = choose|j: int| 0 <= j < s.take(i).len() && s.take(i)[j] == sep;
                            assert(s[j] == sep);
                        }
                    } else {
                        assert(split_on(s, sep)[k] == rest[k - 1]);
                    }
                }
            }
        },
        None => {
            assert(split_on(s, sep) == seq![s]);
            assert forall|k: int| 0 <= k < split_on(s, sep).len() implies !(
            #[trigger] split_on(s, sep)[k]).contains(sep) by {
                assert(split_on(s, sep)[k] == s);
            }
        },
    }
}

proof fn lemma_trim_start_keeps_out(s: Seq<char>, c: char)
    requires
        !s.contains(c),
    ensures
        !trim_start(s).contains(c),
    decreases s.len(),
{
    if s.len() > 0 && is_ws(s[0]) {
        if s.drop_first().contains(c) {
            let j = choose|j: int| 0 <= j < s.drop_first().len() && s.drop_first()[j] == c;
            assert(s[j + 1] == c);
        }
        lemma_trim_start_keeps_out(s.drop_first(), c);
    }
}

proof fn lemma_trim_end_keeps_out(s: Seq<char>, c: char)
    requires
        !s.contains(c),
    ensures
        !trim_end(s).contains(c),
    decreases s.len(),
{
    if s.len() > 0 && is_ws(s.last()) {
        if s.drop_last().contains(c) {
            let j = choose|j: int| 0 <= j < s.drop_last().len() && s.drop_last()[j] == c;
            assert(s[j] == c);
        }
        lemma_trim_end_keeps_out(s.drop_last(), c);
    }
}

proof fn lemma_nonempty_trimmed_lacks(pieces: Seq<Seq<char>>, c: char)
    requires
        forall|k: int| 0 <= k < pieces.len() ==> !(#[trigger] pieces[k]).contains(c),
    ensures
        forall|k: int|
            0 <= k < nonempty_trimmed(pieces).len() ==> !(#[trigger] nonempty_trimmed(pieces)[k]).contains(c),
    decreases pieces.len(),
{
    if pieces.len() > 0 {
        let prev = pieces.drop_last();
        assert forall|k: int| 0 <= k < prev.len() implies !(#[trigger] prev[k]).contains(c) by {
            assert(prev[k] == pieces[k]);
        }
        lemma_nonempty_trimmed_lacks(prev, c);
        assert(!pieces[pieces.len() - 1].contains(c));
        lemma_trim_start_keeps_out(pieces.last(), c);
        lemma_trim_end_keeps_out(trim_start(pieces.last()), c);
        let np = nonempty_trimmed(prev);
        assert forall|k: int| 0 <= k < nonempty_trimmed(pieces).len() implies !(
        #[trigger] nonempty_trimmed(pieces)[k]).contains(c) by {
            if k < np.len() {
                assert(nonempty_trimmed(pieces)[k] == np[k]);
            } else {
                assert(nonempty_trimmed(pieces)[k] == trim(pieces.last()));
            }
        }
    }
}

/// No extension [`parse_extension_list`] yields holds a comma.
pub proof fn lemma_extension_list_entries_hold_no_comma(raw: Seq<char>)
    ensures
        forall|k: int| 0 <= k < extension_list(raw).len() ==> !(#[trigger] extension_list(raw)[k]).contains(','),
{
    lemma_split_pieces_lack_sep(raw, ',');
    lemma_nonempty_trimmed_lacks(split_on(raw, ','), ',');
}

proof fn lemma_split_joined(parts: Seq<Seq<char>>, sep: char)
    requires
        parts.len() >= 1,
        forall|k: int| 0 <= k < parts.len() ==> !(#[trigger] parts[k]).contains(sep),
    ensures
        split_on(joined(parts, sep), sep) == parts,
    decreases parts.len(),
{
    let p0 = parts[0];
    if parts.len() == 1 {
        assert forall|j: int| 0 <= j < p0.len() implies p0[j] != sep by {
            if p0[j] == sep {
                assert(p0.contains(sep));
            }
        }
        lemma_first_index_of_none(p0, sep);
        assert(split_on(p0, sep) == seq![p0]);
        assert(seq![p0] =~= parts);
    } else {
        let rest = parts.drop_first();
        assert forall|k: int| 0 <= k < rest.len() implies !(#[trigger] rest[k]).contains(sep) by {
            assert(rest[k] == parts[k + 1]);
        }
        lemma_split_joined(rest, sep);
        let s = joined(parts, sep);
        let i = p0.len() as int;
        assert(s == p0.push(sep) + joined(rest, sep));
        assert forall|j: int| 0 <= j < i implies s[j] != sep by {
            assert(s[j] == p0[j]);
            if p0[j] == sep {
                assert(p0.contains(sep));
            }
        }
        assert(s[i] == sep);
        lemma_first_index_of_is(s, sep, i);
        assert(s.take(i) =~= p0);
        assert(s.skip(i + 1) =~= joined(rest, sep));
        assert(seq![p0] + rest =~= parts);
    }
}

proof fn lemma_trim_keeps_clean(e: Seq<char>)
    requires
        e.len() > 0,
        !is_ws(e[0]),
        !is_ws(e.last()),
    ensures
        trim(e) == e,
{
    lemma_trim_start_is(e, 0);
    assert(e.skip(0) =~= e);
    lemma_trim_end_is(e, e.len() as int);
    assert(e.take(e.len() as int) =~= e);
}

proof fn lemma_nonempty_trimmed_of_clean(parts: Seq<Seq<char>>)
    requires
        forall|k: int|
            0 <= k < parts.len() ==> {
                let e = #[trigger] parts[k];
                e.len() > 0 && !is_ws(e[0]) && !is_ws(e.last())
            },
    ensures
        nonempty_trimmed(parts) == parts,
    decreases parts.len(),
{
    if parts.len() > 0 {
        let prev = parts.drop_last();
        assert forall|k: int| 0 <= k < prev.len() implies {
            let e = #[trigger] prev[k];
            e.len() > 0 && !is_ws(e[0]) && !is_ws(e.last())
        } by {
            assert(prev[k] == parts[k]);
        }
        lemma_nonempty_trimmed_of_clean(prev);
        let last = parts[parts.len() - 1];
        lemma_trim_keeps_clean(last);
        assert(prev + seq![last] =~= parts);
    }
}

/// Joining the parsed extensions with commas and parsing the result
/// again gives the same list.
pub proof fn lemma_extension_list_round_trip(raw: Seq<char>)
    ensures
        extension_list(joined(extension_list(raw), ',')) == extension_list(raw),
{
    let l = extension_list(raw);
    lemma_extension_list_entries_are_trimmed(raw);
    lemma_extension_list_entries_hold_no_comma(raw);
    if l.len() == 0 {
        let e = Seq::<char>::empty();
        lemma_first_index_of_none(e, ',');
        assert(split_on(e, ',') == seq![e]);
        assert(trim_start(e) == e);
        assert(trim_end(e) == e);
        assert(seq![e].drop_last() =~= Seq::<Seq<char>>::empty());
        assert(seq![e].last() == e);
        assert(trim(e).len() == 0);
        assert(nonempty_trimmed(Seq::<Seq<char>>::empty()) == Seq::<Seq<char>>::empty());
        assert(joined(l, ',') == e);
        assert(nonempty_trimmed(seq![e]) =~= Seq::<Seq<char>>::empty());
    } else {
        lemma_split_joined(l, ',');
        lemma_nonempty_trimmed_of_clean(l);
    }
}

} // verus!
