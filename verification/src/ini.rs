//! Minimal parser for the `def/*.ini` family of files (`registry.ini`'s
//! sections and the per-plugin `[Plugin]` definitions): `;` comments,
//! `[Section]` headers and `key=value` lines, no nesting or
//! interpolation. Section order and duplicate keys are preserved.
use vstd::prelude::*;
use crate::text::{
    chars_of, eq_ignore_ascii_case, first_index_of, lemma_first_index_of, split_chars, split_on,
    str_eq_ignore_ascii_case, string_from_range, trim, trim_str, find_char_from, is_ws, lemma_trim_ends,
};

verus! {

/// One `key=value` line, in file order; duplicate keys stay separate.
pub type Entries = Vec<(String, String)>;

/// The views of a section's entries.
pub open spec fn entries_view(v: Seq<(String, String)>) -> Seq<(Seq<char>, Seq<char>)> {
    v.map_values(|kv: (String, String)| (kv.0@, kv.1@))
}

/// A section's view: its name and its entries.
pub type SectionView = (Seq<char>, Seq<(Seq<char>, Seq<char>)>);

/// The views of a list of sections.
pub open spec fn sections_view(v: Seq<(String, Entries)>) -> Seq<SectionView> {
    v.map_values(|s: (String, Entries)| (s.0@, entries_view(s.1@)))
}

/// A parsed ini file: an ordered list of `(section name, entries)`.
#[derive(Debug, Default, Clone)]
pub struct IniFile {
    sections: Vec<(String, Entries)>,
}

impl View for IniFile {
    type V = Seq<SectionView>;

    closed spec fn view(&self) -> Seq<SectionView> {
        sections_view(self.sections@)
    }
}

/// The lines of `t` as `str::lines` yields them, before trimming: the
/// pieces between `\n`s, without the empty piece after a final `\n` (a
/// line's own `\r` is whitespace, so trimming removes it either way).
pub open spec fn raw_lines(t: Seq<char>) -> Seq<Seq<char>> {
    let p = split_on(t, '\n');
    if p.len() > 0 && p.last().len() == 0 {
        p.drop_last()
    } else {
        p
    }
}

/// The parser's state between lines: the finished sections, the entries
/// of the section being read (none before the first header), and that
/// section's name.
pub struct IniState {
    pub sections: Seq<SectionView>,
    pub current: Option<Seq<(Seq<char>, Seq<char>)>>,
    pub name: Seq<char>,
}

/// The state before the first line.
pub open spec fn ini_start() -> IniState {
    IniState { sections: Seq::empty(), current: None, name: Seq::empty() }
}

/// `line` is a `[Section]` header.
pub open spec fn is_header(line: Seq<char>) -> bool {
    line.len() >= 2 && line[0] == '[' && line.last() == ']'
}

/// The sections finished so far, with the one being read appended.
pub open spec fn close_section(st: IniState) -> Seq<SectionView> {
    match st.current {
        Some(e) => st.sections.push((st.name, e)),
        None => st.sections,
    }
}

/// How one trimmed line changes the state: blank lines and `;` comments
/// are skipped; a header closes the current section and opens a new,
/// empty one named by the trimmed text between the brackets; a line with
/// `=` adds the trimmed key and value around its first `=` to the
/// current section (dropped before the first header); anything else is
/// skipped.
pub open spec fn ini_step(st: IniState, line: Seq<char>) -> IniState {
    if line.len() == 0 || line[0] == ';' {
        st
    } else if is_header(line) {
        IniState {
            sections: close_section(st),
            current: Some(Seq::empty()),
            name: trim(line.subrange(1, line.len() - 1)),
        }
    } else {
        match first_index_of(line, '=') {
            Some(i) => match st.current {
                Some(e) => IniState {
                    sections: st.sections,
                    current: Some(e.push((trim(line.take(i)), trim(line.skip(i + 1))))),
                    name: st.name,
                },
                None => st,
            },
            None => st,
        }
    }
}

/// The state after reading `lines` (already trimmed) in order.
pub open spec fn ini_fold(lines: Seq<Seq<char>>) -> IniState
    decreases lines.len(),
{
    if lines.len() == 0 {
        ini_start()
    } else {
        ini_step(ini_fold(lines.drop_last()), lines.last())
    }
}

/// The sections of `text`.
pub open spec fn parse_ini(text: Seq<char>) -> Seq<SectionView> {
    close_section(ini_fold(raw_lines(text).map_values(|l: Seq<char>| trim(l))))
}

/// Index of the first section whose name equals `name` ignoring ASCII
/// case.
pub open spec fn find_section(secs: Seq<SectionView>, name: Seq<char>) -> Option<int>
    decreases secs.len(),
{
    if secs.len() == 0 {
        None
    } else if eq_ignore_ascii_case(secs[0].0, name) {
        Some(0)
    } else {
        match find_section(secs.drop_first(), name) {
            Some(i) => Some(i + 1),
            None => None,
        }
    }
}

proof fn lemma_find_section_skip(secs: Seq<SectionView>, name: Seq<char>, i: int)
    requires
        0 <= i < secs.len(),
        !eq_ignore_ascii_case(secs[i].0, name),
    ensures
        find_section(secs.skip(i), name) == (match find_section(secs.skip(i + 1), name) {
            Some(j) => Some(j + 1),
            None => None::<int>,
        }),
{
    assert(secs.skip(i).drop_first() =~= secs.skip(i + 1));
}

impl IniFile {
    /// Parses `text`. Lines are trimmed; blank lines and lines starting
    /// with `;` are comments; `[Section]` opens a section; `key=value`
    /// adds an entry (split at the first `=`, both sides trimmed) to the
    /// current section; any other line is skipped rather than treated as
    /// an error, as AutoIt's `IniReadSection` tolerates stray lines.
    pub fn parse(text: &str) -> (r: IniFile)
        ensures
            r@ == parse_ini(text@),
    {
        let tv = chars_of(text);
        let mut pieces = split_chars(&tv, '\n');
        if pieces.len() > 0 && pieces[pieces.len() - 1].as_str().is_empty() {
            pieces.pop();
        }
        let ghost lines = raw_lines(text@).map_values(|l: Seq<char>| trim(l));
        assert(crate::text::views(pieces@) =~= raw_lines(text@));
        let mut sections: Vec<(String, Entries)> = Vec::new();
        let mut current: Option<Entries> = None;
        let mut current_name = String::new();
        let mut i: usize = 0;
        while i < pieces.len()
            invariant
                i <= pieces.len(),
                crate::text::views(pieces@) == raw_lines(text@),
                lines == raw_lines(text@).map_values(|l: Seq<char>| trim(l)),
                ({
                    let st = ini_fold(lines.take(i as int));
                    &&& sections_view(sections@) == st.sections
                    &&& current_name@ == st.name
                    &&& match current {
                        Some(e) => st.current == Some(entries_view(e@)),
                        None => st.current is None,
                    }
                }),
            decreases pieces.len() - i,
        {
            let line = trim_str(pieces[i].as_str());
            let ghost st = ini_fold(lines.take(i as int));
            proof {
                assert(lines.take(i + 1).drop_last() =~= lines.take(i as int));
                assert(lines.take(i + 1).last() == line@);
            }
            let lv = chars_of(line.as_str());
            if lv.len() == 0 || lv[0] == ';' {
                i += 1;
                continue;
            }
            if lv.len() >= 2 && lv[0] == '[' && lv[lv.len() - 1] == ']' {
                let raw_name = string_from_range(&lv, 1, lv.len() - 1);
                let name = trim_str(raw_name.as_str());
                let ghost prev = sections@;
                match current {
                    Some(e) => {
                        sections.push((current_name, e));
                        assert(sections_view(sections@) =~= sections_view(prev).push((st.name, st.current->0)));
                    },
                    None => {},
                }
                current_name = name;
                let fresh: Entries = Vec::new();
                assert(entries_view(fresh@) =~= Seq::<(Seq<char>, Seq<char>)>::empty());
                current = Some(fresh);
                i += 1;
                continue;
            }
            let found = find_char_from(&lv, '=', 0);
            assert(lv@.skip(0) =~= lv@);
            match found {
                Some(eq) => {
                    proof {
                        lemma_first_index_of(lv@, '=');
                    }
                    let key_raw = string_from_range(&lv, 0, eq);
                    let value_raw = string_from_range(&lv, eq + 1, lv.len());
                    assert(key_raw@ =~= lv@.take(eq as int));
                    assert(value_raw@ =~= lv@.skip(eq + 1));
                    let key = trim_str(key_raw.as_str());
                    let value = trim_str(value_raw.as_str());
                    current = match current {
                        Some(mut e) => {
                            let ghost before = e@;
                            e.push((key, value));
                            assert(entries_view(e@) =~= entries_view(before).push((key@, value@)));
                            Some(e)
                        },
                        None => None,
                    };
                },
                None => {},
            }
            i += 1;
        }
        assert(lines.take(pieces.len() as int) =~= lines);
        let ghost st = ini_fold(lines);
        let ghost prev = sections@;
        match current {
            Some(e) => {
                sections.push((current_name, e));
                assert(sections_view(sections@) =~= sections_view(prev).push((st.name, st.current->0)));
            },
            None => {},
        }
        IniFile { sections }
    }

    /// A section's entries in file order, or `None` when there is no such
    /// section. The name is compared ignoring ASCII case, as
    /// `IniReadSection` does; the first matching section wins.
    pub fn section(&self, name: &str) -> (r: Option<&[(String, String)]>)
        ensures
            match find_section(self@, name@) {
                Some(i) => r is Some && entries_view(r->0@) == self@[i].1,
                None => r is None,
            },
    {
        let mut i: usize = 0;
        assert(self@.skip(0) =~= self@);
        while i < self.sections.len()
            invariant
                i <= self.sections.len(),
                find_section(self@, name@) == (match find_section(self@.skip(i as int), name@) {
                    Some(j) => Some(j + i),
                    None => None::<int>,
                }),
            decreases self.sections.len() - i,
        {
            let sec = &self.sections[i];
            if str_eq_ignore_ascii_case(sec.0.as_str(), name) {
                assert(self@.skip(i as int)[0] == self@[i as int]);
                return Some(sec.1.as_slice());
            }
            proof {
                lemma_find_section_skip(self@, name@, i as int);
            }
            i += 1;
        }
        None
    }
}

/// `v` is empty or neither begins nor ends with whitespace.
pub open spec fn no_outer_ws(v: Seq<char>) -> bool {
    v.len() == 0 || (!is_ws(v[0]) && !is_ws(v.last()))
}

/// Every key and value of `entries` is free of surrounding whitespace.
pub open spec fn entries_clean(entries: Seq<(Seq<char>, Seq<char>)>) -> bool {
    forall|j: int| 0 <= j < entries.len() ==> no_outer_ws((#[trigger] entries[j]).0) && no_outer_ws(entries[j].1)
}

/// Every section's name, keys and values are free of surrounding
/// whitespace.
pub open spec fn sections_clean(secs: Seq<SectionView>) -> bool {
    forall|k: int| 0 <= k < secs.len() ==> no_outer_ws((#[trigger] secs[k]).0) && entries_clean(secs[k].1)
}

proof fn lemma_ini_fold_clean(lines: Seq<Seq<char>>)
    ensures
        sections_clean(ini_fold(lines).sections),
        no_outer_ws(ini_fold(lines).name),
        match ini_fold(lines).current {
            Some(e) => entries_clean(e),
            None => true,
        },
    decreases lines.len(),
{
    if lines.len() > 0 {
        lemma_ini_fold_clean(lines.drop_last());
        let st = ini_fold(lines.drop_last());
        let line = lines.last();
        if line.len() == 0 || line[0] == ';' {
        } else if is_header(line) {
            lemma_trim_ends(line.subrange(1, line.len() - 1));
            let secs = close_section(st);
            assert forall|k: int| 0 <= k < secs.len() implies no_outer_ws((#[trigger] secs[k]).0)
                && entries_clean(secs[k].1) by {
                if k < st.sections.len() {
                    assert(secs[k] == st.sections[k]);
                }
            }
            assert(entries_clean(Seq::<(Seq<char>, Seq<char>)>::empty()));
        } else {
            match first_index_of(line, '=') {
                Some(i) => match st.current {
                    Some(e) => {
                        lemma_trim_ends(line.take(i));
                        lemma_trim_ends(line.skip(i + 1));
                        let ne = e.push((trim(line.take(i)), trim(line.skip(i + 1))));
                        assert forall|j: int| 0 <= j < ne.len() implies no_outer_ws((#[trigger] ne[j]).0)
                            && no_outer_ws(ne[j].1) by {
                            if j < e.len() {
                                assert(ne[j] == e[j]);
                            }
                        }
                    },
                    None => {},
                },
                None => {},
            }
        }
    }
}

/// Every section name, key and value [`IniFile::parse`] yields is free of
/// surrounding whitespace: a line `k = v` gives the entry `("k", "v")`.
pub proof fn lemma_parse_ini_trims_names_keys_and_values(text: Seq<char>)
    ensures
        sections_clean(parse_ini(text)),
{
    let st = ini_fold(raw_lines(text).map_values(|l: Seq<char>| trim(l)));
    lemma_ini_fold_clean(raw_lines(text).map_values(|l: Seq<char>| trim(l)));
    let secs = close_section(st);
    assert forall|k: int| 0 <= k < secs.len() implies no_outer_ws((#[trigger] secs[k]).0) && entries_clean(
        secs[k].1,
    ) by {
        if k < st.sections.len() {
            assert(secs[k] == st.sections[k]);
        }
    }
}

} // verus!
