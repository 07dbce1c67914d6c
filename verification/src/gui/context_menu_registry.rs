//! Context-menu registry writes: the write half of
//! `GUI_ContextMenu_OK` (UniExtract.au3:7150-7213) and
//! `GUI_ContextMenu_remove` (UniExtract.au3:7309-7324), as plans — which
//! keys and values to write or remove — for the caller to execute.
//!
//! `reguser`, `reg_all` and `reg_current` are full registry prefixes that
//! already end in `\` (`$regall`/`$regcurrent`); a bare verb name is
//! appended to them directly.
use vstd::prelude::*;
use crate::extract::{cat2, cat3};
use crate::text::{owned, views};

verus! {

/// One shell verb's registry fields: the key name under `reguser`, the
/// menu label, the command-line suffix after `"<script>" "%1"`, and an
/// optional `MultiSelectModel` value (simple mode only).
#[derive(Debug, Clone, PartialEq, Eq)]
pub struct ShellVerb {
    pub key_name: String,
    pub label: String,
    pub command_suffix: String,
    pub multi_select_model: Option<String>,
}

/// The mathematical value of a [`ShellVerb`].
pub struct ShellVerbView {
    pub key_name: Seq<char>,
    pub label: Seq<char>,
    pub command_suffix: Seq<char>,
    pub multi_select_model: Option<Seq<char>>,
}

impl View for ShellVerb {
    type V = ShellVerbView;

    open spec fn view(&self) -> ShellVerbView {
        ShellVerbView {
            key_name: self.key_name@,
            label: self.label@,
            command_suffix: self.command_suffix@,
            multi_select_model: match self.multi_select_model {
                Some(m) => Some(m@),
                None => None,
            },
        }
    }
}

/// The views of a list of verbs.
pub open spec fn verbs_view(v: Seq<ShellVerb>) -> Seq<ShellVerbView> {
    v.map_values(|x: ShellVerb| x@)
}

/// One registry write: `RegWrite($key, $value_name, "REG_SZ", $value)`.
#[derive(Debug, Clone, PartialEq, Eq)]
pub struct RegistryWrite {
    pub key: String,
    pub value_name: String,
    pub value: String,
}

/// A write's view: `(key, value_name, value)`.
pub type WriteView = (Seq<char>, Seq<char>, Seq<char>);

/// The views of a list of writes.
pub open spec fn writes_view(v: Seq<RegistryWrite>) -> Seq<WriteView> {
    v.map_values(|w: RegistryWrite| (w.key@, w.value_name@, w.value@))
}

/// `"<script_path>" "%1"<command_suffix>`.
pub open spec fn command_line(script_path: Seq<char>, verb: ShellVerbView) -> Seq<char> {
    "\""@ + script_path + "\" \"%1\""@ + verb.command_suffix
}

/// The writes of one checked verb in simple mode (UniExtract.au3:7172-7180).
pub open spec fn simple_verb_writes(
    script_path: Seq<char>,
    reguser: Seq<char>,
    verb: ShellVerbView,
    is_win7_or_newer: bool,
    icon_value: Seq<char>,
) -> Seq<WriteView> {
    let key = reguser + verb.key_name;
    let base = seq![(key, ""@, verb.label), (key + "\\command"@, ""@, command_line(script_path, verb))];
    let with_model = match verb.multi_select_model {
        Some(m) => base.push((key, "MultiSelectModel"@, m)),
        None => base,
    };
    if is_win7_or_newer {
        with_model.push((key, "Icon"@, icon_value))
    } else {
        with_model
    }
}

/// The simple-mode writes for the first `n` verb/checked pairs.
pub open spec fn simple_writes(
    script_path: Seq<char>,
    reguser: Seq<char>,
    verbs: Seq<ShellVerbView>,
    checked: Seq<bool>,
    n: int,
    is_win7_or_newer: bool,
    icon_value: Seq<char>,
) -> Seq<WriteView>
    decreases n,
{
    if n <= 0 {
        Seq::empty()
    } else {
        simple_writes(script_path, reguser, verbs, checked, n - 1, is_win7_or_newer, icon_value) + if checked[n - 1] {
            simple_verb_writes(script_path, reguser, verbs[n - 1], is_win7_or_newer, icon_value)
        } else {
            Seq::empty()
        }
    }
}

/// The smaller of two lengths (the verbs and checked flags are zipped).
pub open spec fn zip_len(a: nat, b: nat) -> int {
    if a < b {
        a as int
    } else {
        b as int
    }
}

fn command_line_exec(script_path: &str, verb: &ShellVerb) -> (r: String)
    ensures
        r@ == command_line(script_path@, verb@),
{
    let mut r = cat3("\"", script_path, "\" \"%1\"");
    r.append(verb.command_suffix.as_str());
    r
}

/// A registry write.
fn write(key: &str, value_name: &str, value: &str) -> (r: RegistryWrite)
    ensures
        r.key@ == key@,
        r.value_name@ == value_name@,
        r.value@ == value@,
{
    RegistryWrite { key: owned(key), value_name: owned(value_name), value: owned(value) }
}

/// The simple-mode write loop (UniExtract.au3:7170-7181): for each
/// checked verb (verbs and flags zipped), its label, its command, its
/// `MultiSelectModel` when it has one, and its icon only on Windows 7 or
/// newer.
pub fn build_simple_mode_writes(
    script_path: &str,
    reguser: &str,
    verbs: &[ShellVerb],
    checked: &[bool],
    is_win7_or_newer: bool,
    icon_value: &str,
) -> (r: Vec<RegistryWrite>)
    ensures
        writes_view(r@) == simple_writes(
            script_path@,
            reguser@,
            verbs_view(verbs@),
            checked@,
            zip_len(verbs@.len(), checked@.len()),
            is_win7_or_newer,
            icon_value@,
        ),
{
    let n = if verbs.len() < checked.len() {
        verbs.len()
    } else {
        checked.len()
    };
    let ghost vv = verbs_view(verbs@);
    let mut writes: Vec<RegistryWrite> = Vec::new();
    let mut i: usize = 0;
    while i < n
        invariant
            i <= n,
            n == zip_len(verbs@.len(), checked@.len()),
            vv == verbs_view(verbs@),
            writes_view(writes@) == simple_writes(script_path@, reguser@, vv, checked@, i as int, is_win7_or_newer, icon_value@),
        decreases n - i,
    {
        let ghost before = writes@;
        if checked[i] {
            let verb = &verbs[i];
            assert(vv[i as int] == verb@);
            let key = cat2(reguser, verb.key_name.as_str());
            writes.push(write(key.as_str(), "", verb.label.as_str()));
            let ckey = cat2(key.as_str(), "\\command");
            let cmd = command_line_exec(script_path, verb);
            writes.push(write(ckey.as_str(), "", cmd.as_str()));
            match &verb.multi_select_model {
                Some(model) => {
                    writes.push(write(key.as_str(), "MultiSelectModel", model.as_str()));
                },
                None => {},
            }
            if is_win7_or_newer {
                writes.push(write(key.as_str(), "Icon", icon_value));
            }
            assert(writes_view(writes@) =~= writes_view(before) + simple_verb_writes(
                script_path@,
                reguser@,
                vv[i as int],
                is_win7_or_newer,
                icon_value@,
            ));
        } else {
            assert(writes_view(writes@) =~= writes_view(before) + Seq::<WriteView>::empty());
        }
        i += 1;
    }
    writes
}

/// The four writes describing the cascading submenu's parent key.
pub open spec fn cascading_parent_writes(reguser: Seq<char>, icon_value: Seq<char>) -> Seq<WriteView> {
    let parent = reguser + "uniextract"@;
    seq![
        (parent, "MUIVerb"@, "Universal Extractor"@),
        (parent, "Icon"@, icon_value),
        (parent, "SubCommands"@, ""@),
        (parent, "MultiSelectModel"@, "Player"@),
    ]
}

/// The writes of one checked verb in cascading mode
/// (UniExtract.au3:7194-7198): the icon is written unconditionally.
pub open spec fn cascading_verb_writes(
    script_path: Seq<char>,
    reguser: Seq<char>,
    verb: ShellVerbView,
    icon_value: Seq<char>,
) -> Seq<WriteView> {
    let key = reguser + "uniextract\\Shell\\"@ + verb.key_name;
    seq![
        (key, ""@, verb.label),
        (key + "\\command"@, ""@, command_line(script_path, verb)),
        (key, "Icon"@, icon_value),
    ]
}

/// The cascading-mode verb writes for the first `n` verb/checked pairs.
pub open spec fn cascading_writes(
    script_path: Seq<char>,
    reguser: Seq<char>,
    verbs: Seq<ShellVerbView>,
    checked: Seq<bool>,
    n: int,
    icon_value: Seq<char>,
) -> Seq<WriteView>
    decreases n,
{
    if n <= 0 {
        Seq::empty()
    } else {
        cascading_writes(script_path, reguser, verbs, checked, n - 1, icon_value) + if checked[n - 1] {
            cascading_verb_writes(script_path, reguser, verbs[n - 1], icon_value)
        } else {
            Seq::empty()
        }
    }
}

/// The cascading-mode block (UniExtract.au3:7186-7200): the submenu's
/// parent key (`MUIVerb`, `Icon`, `SubCommands`, `MultiSelectModel =
/// Player`), then for each checked verb its label, command and icon under
/// `uniextract\Shell\`. This branch is only reached on Windows 7 or
/// newer, so the unconditional icon changes nothing.
pub fn build_cascading_mode_writes(
    script_path: &str,
    reguser: &str,
    verbs: &[ShellVerb],
    checked: &[bool],
    icon_value: &str,
) -> (r: Vec<RegistryWrite>)
    ensures
        writes_view(r@) == cascading_parent_writes(reguser@, icon_value@) + cascading_writes(
            script_path@,
            reguser@,
            verbs_view(verbs@),
            checked@,
            zip_len(verbs@.len(), checked@.len()),
            icon_value@,
        ),
{
    let parent = cat2(reguser, "uniextract");
    let mut writes: Vec<RegistryWrite> = Vec::new();
    writes.push(write(parent.as_str(), "MUIVerb", "Universal Extractor"));
    writes.push(write(parent.as_str(), "Icon", icon_value));
    writes.push(write(parent.as_str(), "SubCommands", ""));
    writes.push(write(parent.as_str(), "MultiSelectModel", "Player"));
    let ghost head = cascading_parent_writes(reguser@, icon_value@);
    assert(writes_view(writes@) =~= head);
    let n = if verbs.len() < checked.len() {
        verbs.len()
    } else {
        checked.len()
    };
    let ghost vv = verbs_view(verbs@);
    let mut i: usize = 0;
    while i < n
        invariant
            i <= n,
            n == zip_len(verbs@.len(), checked@.len()),
            vv == verbs_view(verbs@),
            head == cascading_parent_writes(reguser@, icon_value@),
            writes_view(writes@) == head + cascading_writes(script_path@, reguser@, vv, checked@, i as int, icon_value@),
        decreases n - i,
    {
        let ghost before = writes@;
        if checked[i] {
            let verb = &verbs[i];
            assert(vv[i as int] == verb@);
            let key = cat3(reguser, "uniextract\\Shell\\", verb.key_name.as_str());
            writes.push(write(key.as_str(), "", verb.label.as_str()));
            let ckey = cat2(key.as_str(), "\\command");
            let cmd = command_line_exec(script_path, verb);
            writes.push(write(ckey.as_str(), "", cmd.as_str()));
            writes.push(write(key.as_str(), "Icon", icon_value));
            assert(writes_view(writes@) =~= writes_view(before) + cascading_verb_writes(
                script_path@,
                reguser@,
                vv[i as int],
                icon_value@,
            ));
        } else {
            assert(writes_view(writes@) =~= writes_view(before) + Seq::<WriteView>::empty());
        }
        i += 1;
    }
    writes
}

/// The keys removed for the first `n` verb names: each under both
/// scopes.
pub open spec fn verb_removals(reg_all: Seq<char>, reg_current: Seq<char>, names: Seq<Seq<char>>, n: int) -> Seq<Seq<char>>
    decreases n,
{
    if n <= 0 {
        Seq::empty()
    } else {
        verb_removals(reg_all, reg_current, names, n - 1) + seq![reg_all + names[n - 1], reg_current + names[n - 1]]
    }
}

/// `GUI_ContextMenu_remove`'s full wipe (UniExtract.au3:7309-7324, the
/// file association aside): every verb's key under both scopes, then on
/// Windows 7 or newer the cascading `uniextract` key under both scopes —
/// whether or not they exist, since deleting an absent key is harmless.
pub fn resolve_removal_targets(
    reg_all: &str,
    reg_current: &str,
    verb_key_names: &[String],
    is_win7_or_newer: bool,
) -> (r: Vec<String>)
    ensures
        views(r@) == verb_removals(reg_all@, reg_current@, views(verb_key_names@), verb_key_names@.len() as int)
            + if is_win7_or_newer {
            seq![reg_all@ + "uniextract"@, reg_current@ + "uniextract"@]
        } else {
            Seq::empty()
        },
{
    let ghost names = views(verb_key_names@);
    let mut targets: Vec<String> = Vec::new();
    let mut i: usize = 0;
    while i < verb_key_names.len()
        invariant
            i <= verb_key_names.len(),
            names == views(verb_key_names@),
            views(targets@) == verb_removals(reg_all@, reg_current@, names, i as int),
        decreases verb_key_names.len() - i,
    {
        let ghost before = targets@;
        let name = verb_key_names[i].as_str();
        targets.push(cat2(reg_all, name));
        targets.push(cat2(reg_current, name));
        assert(views(targets@) =~= views(before) + seq![reg_all@ + names[i as int], reg_current@ + names[i as int]]);
        i += 1;
    }
    let ghost before = targets@;
    if is_win7_or_newer {
        targets.push(cat2(reg_all, "uniextract"));
        targets.push(cat2(reg_current, "uniextract"));
        assert(views(targets@) =~= views(before) + seq![reg_all@ + "uniextract"@, reg_current@ + "uniextract"@]);
    } else {
        assert(views(targets@) =~= views(before) + Seq::<Seq<char>>::empty());
    }
    targets
}

/// `If $addassocenabled Then GUI_ContextMenu_fileassoc(0)`
/// (UniExtract.au3:7323): an enabled file association is always torn down
/// before the rebuild, whatever the dialog's new state.
pub fn should_teardown_file_assoc_before_rebuild(was_previously_enabled: bool) -> (r: bool)
    ensures
        r == was_previously_enabled,
{
    was_previously_enabled
}

/// How many of the first `n` flags are set.
pub open spec fn checked_count(checked: Seq<bool>, n: int) -> int
    decreases n,
{
    if n <= 0 {
        0
    } else {
        checked_count(checked, n - 1) + if checked[n - 1] {
            1int
        } else {
            0int
        }
    }
}

proof fn lemma_checked_count_monotonic(checked: Seq<bool>, i: int, k: int)
    requires
        0 <= i <= k,
    ensures
        checked_count(checked, i) <= checked_count(checked, k),
        checked_count(checked, k) - checked_count(checked, i) <= k - i,
    decreases k - i,
{
    if i < k {
        lemma_checked_count_monotonic(checked, i, k - 1);
    }
}

proof fn lemma_cascading_writes_layout(
    script_path: Seq<char>,
    reguser: Seq<char>,
    verbs: Seq<ShellVerbView>,
    checked: Seq<bool>,
    n: int,
    icon_value: Seq<char>,
)
    requires
        0 <= n <= verbs.len(),
        n <= checked.len(),
    ensures
        cascading_writes(script_path, reguser, verbs, checked, n, icon_value).len() == 3 * checked_count(checked, n),
        forall|i: int|
            0 <= i < n && #[trigger] checked[i] ==> cascading_writes(
                script_path,
                reguser,
                verbs,
                checked,
                n,
                icon_value,
            ).subrange(3 * checked_count(checked, i), 3 * checked_count(checked, i) + 3)
                == cascading_verb_writes(script_path, reguser, verbs[i], icon_value),
    decreases n,
{
    if n > 0 {
        lemma_cascading_writes_layout(script_path, reguser, verbs, checked, n - 1, icon_value);
        let prev = cascading_writes(script_path, reguser, verbs, checked, n - 1, icon_value);
        let w = cascading_writes(script_path, reguser, verbs, checked, n, icon_value);
        assert forall|i: int|
            0 <= i < n && #[trigger] checked[i] implies w.subrange(
                3 * checked_count(checked, i),
                3 * checked_count(checked, i) + 3,
            ) == cascading_verb_writes(script_path, reguser, verbs[i], icon_value) by {
            lemma_checked_count_monotonic(checked, 0, i);
            assert(checked_count(checked, i + 1) == checked_count(checked, i) + 1);
            if i < n - 1 {
                lemma_checked_count_monotonic(checked, i + 1, n - 1);
                assert(w.subrange(3 * checked_count(checked, i), 3 * checked_count(checked, i) + 3)
                    =~= prev.subrange(3 * checked_count(checked, i), 3 * checked_count(checked, i) + 3));
            } else {
                assert(w.subrange(3 * checked_count(checked, i), 3 * checked_count(checked, i) + 3)
                    =~= cascading_verb_writes(script_path, reguser, verbs[i], icon_value));
            }
        }
    }
}

/// The cascading-mode writes are laid out in fixed places: the four
/// parent writes first, then three writes per checked verb (4 + 3n in
/// all for n checked verbs), the j-th checked verb's label, command and
/// icon at positions 4 + 3j to 6 + 3j.
pub proof fn lemma_cascading_mode_writes_positions(
    script_path: Seq<char>,
    reguser: Seq<char>,
    verbs: Seq<ShellVerbView>,
    checked: Seq<bool>,
    icon_value: Seq<char>,
)
    ensures
        ({
            let n = zip_len(verbs.len(), checked.len());
            let w = cascading_parent_writes(reguser, icon_value) + cascading_writes(
                script_path,
                reguser,
                verbs,
                checked,
                n,
                icon_value,
            );
            &&& w.len() == 4 + 3 * checked_count(checked, n)
            &&& w.subrange(0, 4) == cascading_parent_writes(reguser, icon_value)
            &&& forall|i: int|
                0 <= i < n && #[trigger] checked[i] ==> w.subrange(
                    4 + 3 * checked_count(checked, i),
                    7 + 3 * checked_count(checked, i),
                ) == cascading_verb_writes(script_path, reguser, verbs[i], icon_value)
            &&& forall|i: int|
                0 <= i < n && #[trigger] checked[i] ==> {
                    let c = checked_count(checked, i);
                    let key = reguser + "uniextract\\Shell\\"@ + verbs[i].key_name;
                    &&& w[4 + 3 * c] == (key, ""@, verbs[i].label)
                    &&& w[5 + 3 * c] == (key + "\\command"@, ""@, "\""@ + script_path + "\" \"%1\""@
                        + verbs[i].command_suffix)
                    &&& w[6 + 3 * c] == (key, "Icon"@, icon_value)
                }
        }),
{
    let n = zip_len(verbs.len(), checked.len());
    let head = cascading_parent_writes(reguser, icon_value);
    let tail = cascading_writes(script_path, reguser, verbs, checked, n, icon_value);
    let w = head + tail;
    lemma_cascading_writes_layout(script_path, reguser, verbs, checked, n, icon_value);
    assert(w.subrange(0, 4) =~= head);
    assert forall|i: int|
        0 <= i < n && #[trigger] checked[i] implies w.subrange(
            4 + 3 * checked_count(checked, i),
            7 + 3 * checked_count(checked, i),
        ) == cascading_verb_writes(script_path, reguser, verbs[i], icon_value) by {
        let c = checked_count(checked, i);
        lemma_checked_count_monotonic(checked, 0, i);
        assert(checked_count(checked, i + 1) == c + 1);
        lemma_checked_count_monotonic(checked, i + 1, n);
        assert(w.subrange(4 + 3 * c, 7 + 3 * c) =~= tail.subrange(3 * c, 3 * c + 3));
    }
    assert forall|i: int|
        0 <= i < n && #[trigger] checked[i] implies {
            let c = checked_count(checked, i);
            let key = reguser + "uniextract\\Shell\\"@ + verbs[i].key_name;
            &&& w[4 + 3 * c] == (key, ""@, verbs[i].label)
            &&& w[5 + 3 * c] == (key + "\\command"@, ""@, "\""@ + script_path + "\" \"%1\""@
                + verbs[i].command_suffix)
            &&& w[6 + 3 * c] == (key, "Icon"@, icon_value)
        } by {
        let c = checked_count(checked, i);
        lemma_checked_count_monotonic(checked, 0, i);
        assert(checked_count(checked, i + 1) == c + 1);
        lemma_checked_count_monotonic(checked, i + 1, n);
        let sub = w.subrange(4 + 3 * c, 7 + 3 * c);
        assert(sub == cascading_verb_writes(script_path, reguser, verbs[i], icon_value));
        assert(w[4 + 3 * c] == sub[0]);
        assert(w[5 + 3 * c] == sub[1]);
        assert(w[6 + 3 * c] == sub[2]);
    }
}

proof fn lemma_simple_writes_prefix(
    script_path: Seq<char>,
    reguser: Seq<char>,
    verbs: Seq<ShellVerbView>,
    checked: Seq<bool>,
    m: int,
    n: int,
    is_win7_or_newer: bool,
    icon_value: Seq<char>,
)
    requires
        0 <= m <= n,
    ensures
        simple_writes(script_path, reguser, verbs, checked, m, is_win7_or_newer, icon_value).len()
            <= simple_writes(script_path, reguser, verbs, checked, n, is_win7_or_newer, icon_value).len(),
        forall|q: int|
            0 <= q < simple_writes(script_path, reguser, verbs, checked, m, is_win7_or_newer, icon_value).len()
                ==> #[trigger] simple_writes(script_path, reguser, verbs, checked, n, is_win7_or_newer, icon_value)[q]
                == simple_writes(script_path, reguser, verbs, checked, m, is_win7_or_newer, icon_value)[q],
    decreases n - m,
{
    if m < n {
        lemma_simple_writes_prefix(script_path, reguser, verbs, checked, m, n - 1, is_win7_or_newer, icon_value);
        let a = simple_writes(script_path, reguser, verbs, checked, n - 1, is_win7_or_newer, icon_value);
        let b = simple_writes(script_path, reguser, verbs, checked, n, is_win7_or_newer, icon_value);
        assert forall|q: int| 0 <= q < a.len() implies #[trigger] b[q] == a[q] by {}
    }
}

/// In simple mode every checked verb's writes begin right after the
/// writes of the verbs before it: first its label under
/// `reguser\<key name>`, then its command under `...\command`, which is
/// `"<script_path>" "%1"` followed by the verb's own command suffix.
pub proof fn lemma_simple_mode_writes_label_and_command(
    script_path: Seq<char>,
    reguser: Seq<char>,
    verbs: Seq<ShellVerbView>,
    checked: Seq<bool>,
    is_win7_or_newer: bool,
    icon_value: Seq<char>,
)
    ensures
        ({
            let n = zip_len(verbs.len(), checked.len());
            let w = simple_writes(script_path, reguser, verbs, checked, n, is_win7_or_newer, icon_value);
            forall|i: int|
                0 <= i < n && #[trigger] checked[i] ==> {
                    let p = simple_writes(script_path, reguser, verbs, checked, i, is_win7_or_newer, icon_value).len() as int;
                    let key = reguser + verbs[i].key_name;
                    &&& w[p] == (key, ""@, verbs[i].label)
                    &&& w[p + 1] == (key + "\\command"@, ""@, "\""@ + script_path + "\" \"%1\""@
                        + verbs[i].command_suffix)
                }
        }),
{
    let n = zip_len(verbs.len(), checked.len());
    let w = simple_writes(script_path, reguser, verbs, checked, n, is_win7_or_newer, icon_value);
    assert forall|i: int| 0 <= i < n && #[trigger] checked[i] implies {
        let p = simple_writes(script_path, reguser, verbs, checked, i, is_win7_or_newer, icon_value).len() as int;
        let key = reguser + verbs[i].key_name;
        &&& w[p] == (key, ""@, verbs[i].label)
        &&& w[p + 1] == (key + "\\command"@, ""@, "\""@ + script_path + "\" \"%1\""@
            + verbs[i].command_suffix)
    } by {
        let before = simple_writes(script_path, reguser, verbs, checked, i, is_win7_or_newer, icon_value);
        let upto = simple_writes(script_path, reguser, verbs, checked, i + 1, is_win7_or_newer, icon_value);
        let mine = simple_verb_writes(script_path, reguser, verbs[i], is_win7_or_newer, icon_value);
        assert(upto == before + mine);
        assert(mine.len() >= 2);
        lemma_simple_writes_prefix(script_path, reguser, verbs, checked, i + 1, n, is_win7_or_newer, icon_value);
        let p = before.len() as int;
        assert(w[p] == upto[p]);
        assert(w[p + 1] == upto[p + 1]);
        assert(upto[p] == mine[0]);
        assert(upto[p + 1] == mine[1]);
    }
}

} // verus!
