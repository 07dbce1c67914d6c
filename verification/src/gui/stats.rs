//! Local usage statistics: the decisions inside `GUI_Stats`
//! (UniExtract.au3:7983-8061) and the counter writes of `terminate()`
//! (UniExtract.au3:4125-4127). Nothing here is transmitted.
//!
//! The pie-chart drawing (`_Pie_*`, GDI+) is rendering, not behaviour;
//! what feeds it — the classification, the threshold and the top-N
//! selection — is here.
use vstd::prelude::*;
use crate::status::Status;
use crate::text::{owned, str_equal};

verus! {

// ---------------------------------------------------------------------
// Status keys and buckets
// ---------------------------------------------------------------------
/// The "Statistics" ini key of a status: UniExtract.au3's `$STATUS_*`
/// strings (UniExtract.au3:106-110), used both by `terminate()`'s counter
/// write and by `GUI_Stats`'s classification.
pub open spec fn status_key(status: Status) -> Seq<char> {
    match status {
        Status::Syntax => "syntax"@,
        Status::FileInfo { .. } => "fileinfo"@,
        Status::UnknownExe => "unknownexe"@,
        Status::UnknownExt => "unknownext"@,
        Status::InvalidFile => "invalidfile"@,
        Status::InvalidDir => "invaliddir"@,
        Status::NotPacked => "notpacked"@,
        Status::Batch => "batch"@,
        Status::NotSupported => "notsupported"@,
        Status::MissingExe => "missingexe"@,
        Status::Timeout => "timeout"@,
        Status::Password => "password"@,
        Status::MissingDef => "missingdef"@,
        Status::MoveFailed => "movefailed"@,
        Status::NoFreeSpace => "nofreespace"@,
        Status::MissingPart => "missingpart"@,
        Status::Failed => "failed"@,
        Status::Success => "success"@,
        Status::Silent => "silent"@,
        Status::TrayExit => "trayexit"@,
    }
}

/// The ini key of `status`.
pub fn status_ini_key(status: Status) -> (r: &'static str)
    ensures
        r@ == status_key(status),
{
    match status {
        Status::Syntax => "syntax",
        Status::FileInfo { .. } => "fileinfo",
        Status::UnknownExe => "unknownexe",
        Status::UnknownExt => "unknownext",
        Status::InvalidFile => "invalidfile",
        Status::InvalidDir => "invaliddir",
        Status::NotPacked => "notpacked",
        Status::Batch => "batch",
        Status::NotSupported => "notsupported",
        Status::MissingExe => "missingexe",
        Status::Timeout => "timeout",
        Status::Password => "password",
        Status::MissingDef => "missingdef",
        Status::MoveFailed => "movefailed",
        Status::NoFreeSpace => "nofreespace",
        Status::MissingPart => "missingpart",
        Status::Failed => "failed",
        Status::Success => "success",
        Status::Silent => "silent",
        Status::TrayExit => "trayexit",
    }
}

/// The `$status = $STATUS_SUCCESS` gate on the archive-type counter
/// write (UniExtract.au3:4127).
pub fn should_increment_arctype_counter(status: Status) -> (r: bool)
    ensures
        r == (status == Status::Success),
{
    match status {
        Status::Success => true,
        _ => false,
    }
}

/// The bucket of `GUI_Stats`'s pie charts a "Statistics" key falls into
/// (UniExtract.au3:8008-8024).
#[derive(Debug, Clone, Copy, PartialEq, Eq, Structural)]
pub enum StatsBucket {
    Success,
    Failed,
    FileInfo,
    Unknown,
    /// `batch`/`silent`/`syntax`: left out of both charts.
    Excluded,
    /// Any other key, counted as an archive type (`Case Else`).
    ArchiveType,
}

/// `GUI_Stats`'s per-key `Switch` (UniExtract.au3:8008-8024), compared
/// exactly. The `Switch` has no case for `movefailed`, `nofreespace`,
/// `missingpart` or `trayexit`, so those status keys fall through to
/// `Case Else` and are counted as archive types.
pub open spec fn stats_bucket(key: Seq<char>) -> StatsBucket {
    if key == "fileinfo"@ {
        StatsBucket::FileInfo
    } else if key == "notsupported"@ || key == "unknownexe"@ || key == "unknownext"@ {
        StatsBucket::Unknown
    } else if key == "failed"@ || key == "invaliddir"@ || key == "invalidfile"@ || key
        == "missingdef"@ || key == "missingexe"@ || key == "timeout"@ {
        StatsBucket::Failed
    } else if key == "success"@ || key == "notpacked"@ || key == "password"@ {
        StatsBucket::Success
    } else if key == "batch"@ || key == "silent"@ || key == "syntax"@ {
        StatsBucket::Excluded
    } else {
        StatsBucket::ArchiveType
    }
}

/// Classifies one "Statistics" key.
pub fn classify_stats_key(key: &str) -> (r: StatsBucket)
    ensures
        r == stats_bucket(key@),
{
    if str_equal(key, "fileinfo") {
        StatsBucket::FileInfo
    } else if str_equal(key, "notsupported") || str_equal(key, "unknownexe") || str_equal(
        key,
        "unknownext",
    ) {
        StatsBucket::Unknown
    } else if str_equal(key, "failed") || str_equal(key, "invaliddir") || str_equal(
        key,
        "invalidfile",
    ) || str_equal(key, "missingdef") || str_equal(key, "missingexe") || str_equal(
        key,
        "timeout",
    ) {
        StatsBucket::Failed
    } else if str_equal(key, "success") || str_equal(key, "notpacked") || str_equal(
        key,
        "password",
    ) {
        StatsBucket::Success
    } else if str_equal(key, "batch") || str_equal(key, "silent") || str_equal(key, "syntax") {
        StatsBucket::Excluded
    } else {
        StatsBucket::ArchiveType
    }
}

/// `GUI_Stats`'s "enough data" gate (UniExtract.au3:7985-7986): at least
/// ten distinct keys in the section (`$aReturn[0][0]` counts keys, not
/// their values).
pub fn should_show_stats(distinct_key_count: usize) -> (r: bool)
    ensures
        r == (distinct_key_count >= 10),
{
    distinct_key_count >= 10
}

// ---------------------------------------------------------------------
// Top entries by count
// ---------------------------------------------------------------------
/// A `(name, count)` entry's view.
pub type CountEntry = (Seq<char>, i64);

/// The views of a list of entries.
pub open spec fn entries_view(v: Seq<(String, i64)>) -> Seq<CountEntry> {
    v.map_values(|e: (String, i64)| (e.0@, e.1))
}

/// Counts never increase along `t`.
pub open spec fn sorted_by_count_desc(t: Seq<CountEntry>) -> bool {
    forall|i: int, j: int| 0 <= i < j < t.len() ==> t[i].1 >= t[j].1
}

/// The entries of `s` whose count is `c`, in order.
pub open spec fn with_count(s: Seq<CountEntry>, c: i64) -> Seq<CountEntry>
    decreases s.len(),
{
    if s.len() == 0 {
        Seq::empty()
    } else {
        with_count(s.drop_last(), c) + if s.last().1 == c {
            seq![s.last()]
        } else {
            Seq::empty()
        }
    }
}

/// `t` is `s` sorted by descending count with a stable sort: counts
/// never increase along `t`, and the entries of each count appear in `t`
/// exactly as, and in the order, they appear in `s`.
pub open spec fn stable_count_sort(s: Seq<CountEntry>, t: Seq<CountEntry>) -> bool {
    &&& sorted_by_count_desc(t)
    &&& forall|c: i64| #[trigger] with_count(t, c) == with_count(s, c)
}

proof fn lemma_with_count_add(a: Seq<CountEntry>, b: Seq<CountEntry>, c: i64)
    ensures
        with_count(a + b, c) == with_count(a, c) + with_count(b, c),
    decreases b.len(),
{
    if b.len() == 0 {
        assert(a + b =~= a);
        assert(with_count(a, c) + with_count(b, c) =~= with_count(a, c));
    } else {
        assert((a + b).drop_last() =~= a + b.drop_last());
        assert((a + b).last() == b.last());
        lemma_with_count_add(a, b.drop_last(), c);
        let tail: Seq<CountEntry> = if b.last().1 == c {
            seq![b.last()]
        } else {
            Seq::empty()
        };
        assert(with_count(a, c) + with_count(b.drop_last(), c) + tail =~= with_count(a, c) + (
        with_count(b.drop_last(), c) + tail));
    }
}

proof fn lemma_with_count_none(s: Seq<CountEntry>, c: i64)
    requires
        forall|k: int| 0 <= k < s.len() ==> s[k].1 != c,
    ensures
        with_count(s, c) == Seq::<CountEntry>::empty(),
    decreases s.len(),
{
    if s.len() > 0 {
        lemma_with_count_none(s.drop_last(), c);
        assert(with_count(s, c) =~= Seq::<CountEntry>::empty());
    }
}

/// Inserting `x` at `p` in a stably sorted `o` — after every entry of
/// count at least `x`'s and before every entry of a smaller count —
/// stably sorts `s` with `x` appended.
proof fn lemma_insert_keeps_stable(s: Seq<CountEntry>, o: Seq<CountEntry>, p: int, x: CountEntry)
    requires
        stable_count_sort(s, o),
        0 <= p <= o.len(),
        forall|k: int| 0 <= k < p ==> o[k].1 >= x.1,
        forall|k: int| p <= k < o.len() ==> o[k].1 < x.1,
    ensures
        stable_count_sort(s.push(x), o.insert(p, x)),
{
    let n = o.insert(p, x);
    let pre = o.take(p);
    let post = o.skip(p);
    assert(n =~= pre + seq![x] + post);
    assert(o =~= pre + post);
    assert(s.push(x).drop_last() =~= s);
    assert forall|i: int, j: int| 0 <= i < j < n.len() implies n[i].1 >= n[j].1 by {
        if j < p {
            assert(n[i] == o[i] && n[j] == o[j]);
        } else if j == p {
            assert(n[i] == o[i]);
        } else if i < p {
            assert(n[i] == o[i] && n[j] == o[j - 1]);
        } else if i == p {
            assert(n[j] == o[j - 1]);
        } else {
            assert(n[i] == o[i - 1] && n[j] == o[j - 1]);
        }
    }
    assert forall|c: i64| #[trigger] with_count(n, c) == with_count(s.push(x), c) by {
        lemma_with_count_add(pre + seq![x], post, c);
        lemma_with_count_add(pre, seq![x], c);
        lemma_with_count_add(pre, post, c);
        assert(seq![x].drop_last() =~= Seq::<CountEntry>::empty());
        assert(with_count(Seq::<CountEntry>::empty(), c) == Seq::<CountEntry>::empty());
        assert(seq![x].last() == x);
        assert(with_count(o, c) == with_count(s, c));
        if c == x.1 {
            assert forall|k: int| 0 <= k < post.len() implies post[k].1 != c by {
                assert(post[k] == o[p + k]);
            }
            lemma_with_count_none(post, c);
            assert(with_count(seq![x], c) =~= seq![x]);
            assert(with_count(pre, c) + Seq::<CountEntry>::empty() =~= with_count(pre, c));
            assert(with_count(pre + seq![x], c) + Seq::<CountEntry>::empty() =~= with_count(
                pre + seq![x],
                c,
            ));
        } else {
            assert(with_count(seq![x], c) =~= Seq::<CountEntry>::empty());
            assert(with_count(pre, c) + Seq::<CountEntry>::empty() =~= with_count(pre, c));
            assert(with_count(s, c) + Seq::<CountEntry>::empty() =~= with_count(s, c));
        }
    }
}

/// `entries` sorted by descending count, with equal counts kept in their
/// input order.
fn sort_by_count_desc(entries: &Vec<(String, i64)>) -> (r: Vec<(String, i64)>)
    ensures
        r@.len() == entries@.len(),
        stable_count_sort(entries_view(entries@), entries_view(r@)),
{
    let ghost s = entries_view(entries@);
    let mut out: Vec<(String, i64)> = Vec::new();
    let mut i: usize = 0;
    assert(s.take(0) =~= Seq::<CountEntry>::empty());
    assert(entries_view(out@) =~= Seq::<CountEntry>::empty());
    while i < entries.len()
        invariant
            i <= entries.len(),
            s == entries_view(entries@),
            out@.len() == i,
            stable_count_sort(s.take(i as int), entries_view(out@)),
        decreases entries.len() - i,
    {
        let count = entries[i].1;
        let ghost o = entries_view(out@);
        let mut p: usize = 0;
        while p < out.len() && out[p].1 >= count
            invariant
                p <= out.len(),
                o == entries_view(out@),
                forall|k: int| 0 <= k < p ==> o[k].1 >= count,
            decreases out.len() - p,
        {
            p += 1;
        }
        assert forall|k: int| p <= k < o.len() implies o[k].1 < count by {
            assert(o[p as int].1 < count);
            assert(o[p as int].1 >= o[k].1);
        }
        let entry = (owned(entries[i].0.as_str()), count);
        let ghost x: CountEntry = (entry.0@, entry.1);
        assert(x == s[i as int]);
        proof {
            lemma_insert_keeps_stable(s.take(i as int), o, p as int, x);
        }
        out.insert(p, entry);
        assert(entries_view(out@) =~= o.insert(p as int, x));
        assert(s.take(i + 1) =~= s.take(i as int).push(x));
        i += 1;
    }
    assert(s.take(entries.len() as int) =~= s);
    out
}

/// `_ArraySort($GUI_Stats_Types, 1)` then `ReDim $GUI_Stats_Types[9][2]`
/// (UniExtract.au3:8028-8029): the entries sorted by descending count,
/// equal counts in their input order, cut to the first `limit`.
pub fn top_n_by_count(entries: Vec<(String, i64)>, limit: usize) -> (r: Vec<(String, i64)>)
    ensures
        r@.len() == (if limit < entries@.len() {
            limit as int
        } else {
            entries@.len() as int
        }),
        exists|t: Seq<CountEntry>|
            stable_count_sort(entries_view(entries@), t) && entries_view(r@) == t.take(
                r@.len() as int,
            ),
{
    let mut sorted = sort_by_count_desc(&entries);
    let ghost t = entries_view(sorted@);
    sorted.truncate(limit);
    assert(entries_view(sorted@) =~= t.take(sorted@.len() as int));
    sorted
}

proof fn lemma_with_count_first(t: Seq<CountEntry>, c: i64)
    requires
        t.len() > 0,
    ensures
        with_count(t, c) == (if t[0].1 == c {
            seq![t[0]]
        } else {
            Seq::<CountEntry>::empty()
        }) + with_count(t.drop_first(), c),
{
    let head = seq![t[0]];
    assert(t =~= head + t.drop_first());
    lemma_with_count_add(head, t.drop_first(), c);
    assert(head.drop_last() =~= Seq::<CountEntry>::empty());
    assert(with_count(Seq::<CountEntry>::empty(), c) == Seq::<CountEntry>::empty());
    assert(head.last() == t[0]);
    assert(Seq::<CountEntry>::empty() + seq![t[0]] =~= seq![t[0]]);
    assert(Seq::<CountEntry>::empty() + Seq::<CountEntry>::empty() =~= Seq::<CountEntry>::empty());
}

proof fn lemma_with_count_has(t: Seq<CountEntry>, k: int)
    requires
        0 <= k < t.len(),
    ensures
        with_count(t, t[k].1).len() > 0,
    decreases t.len(),
{
    if k < t.len() - 1 {
        assert(t.drop_last()[k] == t[k]);
        lemma_with_count_has(t.drop_last(), k);
    }
}

proof fn lemma_same_classes_sorted_equal(t1: Seq<CountEntry>, t2: Seq<CountEntry>)
    requires
        sorted_by_count_desc(t1),
        sorted_by_count_desc(t2),
        forall|c: i64| #[trigger] with_count(t1, c) == with_count(t2, c),
    ensures
        t1 == t2,
    decreases t1.len() + t2.len(),
{
    if t1.len() == 0 && t2.len() == 0 {
        assert(t1 =~= t2);
    } else if t1.len() == 0 {
        lemma_with_count_has(t2, 0);
        assert(with_count(t1, t2[0].1) == with_count(t2, t2[0].1));
    } else if t2.len() == 0 {
        lemma_with_count_has(t1, 0);
        assert(with_count(t1, t1[0].1) == with_count(t2, t1[0].1));
    } else {
        let c1 = t1[0].1;
        let c2 = t2[0].1;
        // Each first count occurs in the other sequence, so neither is
        // smaller than the other.
        lemma_with_count_first(t1, c2);
        lemma_with_count_first(t2, c2);
        lemma_with_count_first(t1, c1);
        lemma_with_count_first(t2, c1);
        if c1 != c2 {
            if c1 < c2 {
                assert(with_count(t1, c2) == with_count(t2, c2));
                assert forall|k: int| 0 <= k < t1.drop_first().len() implies t1.drop_first()[k].1
                    != c2 by {
                    assert(t1.drop_first()[k] == t1[k + 1]);
                }
                lemma_with_count_none(t1.drop_first(), c2);
                assert(with_count(t2, c2).len() > 0);
            } else {
                assert(with_count(t1, c1) == with_count(t2, c1));
                assert forall|k: int| 0 <= k < t2.drop_first().len() implies t2.drop_first()[k].1
                    != c1 by {
                    assert(t2.drop_first()[k] == t2[k + 1]);
                }
                lemma_with_count_none(t2.drop_first(), c1);
                assert(with_count(t1, c1).len() > 0);
            }
        }
        assert(with_count(t1, c1) == with_count(t2, c1));
        assert(with_count(t1, c1)[0] == t1[0]);
        assert(with_count(t2, c1)[0] == t2[0]);
        let r1 = t1.drop_first();
        let r2 = t2.drop_first();
        assert forall|c: i64| #[trigger] with_count(r1, c) == with_count(r2, c) by {
            lemma_with_count_first(t1, c);
            lemma_with_count_first(t2, c);
            assert(with_count(t1, c) == with_count(t2, c));
            if c == c1 {
                assert(with_count(r1, c) =~= with_count(t1, c).drop_first());
                assert(with_count(r2, c) =~= with_count(t2, c).drop_first());
            } else {
                assert(Seq::<CountEntry>::empty() + with_count(r1, c) =~= with_count(r1, c));
                assert(Seq::<CountEntry>::empty() + with_count(r2, c) =~= with_count(r2, c));
            }
        }
        assert forall|i: int, j: int| 0 <= i < j < r1.len() implies r1[i].1 >= r1[j].1 by {
            assert(r1[i] == t1[i + 1] && r1[j] == t1[j + 1]);
        }
        assert forall|i: int, j: int| 0 <= i < j < r2.len() implies r2[i].1 >= r2[j].1 by {
            assert(r2[i] == t2[i + 1] && r2[j] == t2[j + 1]);
        }
        lemma_same_classes_sorted_equal(r1, r2);
        assert(t1 =~= seq![t1[0]] + r1);
        assert(t2 =~= seq![t2[0]] + r2);
    }
}

/// A stable sort by descending count has exactly one result: the
/// ordering [`top_n_by_count`] keeps a prefix of is determined by its
/// input.
pub proof fn lemma_stable_count_sort_unique(s: Seq<CountEntry>, t1: Seq<CountEntry>, t2: Seq<CountEntry>)
    requires
        stable_count_sort(s, t1),
        stable_count_sort(s, t2),
    ensures
        t1 == t2,
{
    assert forall|c: i64| #[trigger] with_count(t1, c) == with_count(t2, c) by {
        assert(with_count(t1, c) == with_count(s, c));
        assert(with_count(t2, c) == with_count(s, c));
    }
    lemma_same_classes_sorted_equal(t1, t2);
}

/// The characters of every status key.
proof fn lemma_status_key_texts()
    ensures
        "syntax"@ == seq!['s', 'y', 'n', 't', 'a', 'x'],
        "fileinfo"@ == seq!['f', 'i', 'l', 'e', 'i', 'n', 'f', 'o'],
        "unknownexe"@ == seq!['u', 'n', 'k', 'n', 'o', 'w', 'n', 'e', 'x', 'e'],
        "unknownext"@ == seq!['u', 'n', 'k', 'n', 'o', 'w', 'n', 'e', 'x', 't'],
        "invalidfile"@ == seq!['i', 'n', 'v', 'a', 'l', 'i', 'd', 'f', 'i', 'l', 'e'],
        "invaliddir"@ == seq!['i', 'n', 'v', 'a', 'l', 'i', 'd', 'd', 'i', 'r'],
        "notpacked"@ == seq!['n', 'o', 't', 'p', 'a', 'c', 'k', 'e', 'd'],
        "batch"@ == seq!['b', 'a', 't', 'c', 'h'],
        "notsupported"@ == seq!['n', 'o', 't', 's', 'u', 'p', 'p', 'o', 'r', 't', 'e', 'd'],
        "missingexe"@ == seq!['m', 'i', 's', 's', 'i', 'n', 'g', 'e', 'x', 'e'],
        "timeout"@ == seq!['t', 'i', 'm', 'e', 'o', 'u', 't'],
        "password"@ == seq!['p', 'a', 's', 's', 'w', 'o', 'r', 'd'],
        "missingdef"@ == seq!['m', 'i', 's', 's', 'i', 'n', 'g', 'd', 'e', 'f'],
        "movefailed"@ == seq!['m', 'o', 'v', 'e', 'f', 'a', 'i', 'l', 'e', 'd'],
        "nofreespace"@ == seq!['n', 'o', 'f', 'r', 'e', 'e', 's', 'p', 'a', 'c', 'e'],
        "missingpart"@ == seq!['m', 'i', 's', 's', 'i', 'n', 'g', 'p', 'a', 'r', 't'],
        "failed"@ == seq!['f', 'a', 'i', 'l', 'e', 'd'],
        "success"@ == seq!['s', 'u', 'c', 'c', 'e', 's', 's'],
        "silent"@ == seq!['s', 'i', 'l', 'e', 'n', 't'],
        "trayexit"@ == seq!['t', 'r', 'a', 'y', 'e', 'x', 'i', 't'],
{
    reveal_strlit("syntax");
    reveal_strlit("fileinfo");
    reveal_strlit("unknownexe");
    reveal_strlit("unknownext");
    reveal_strlit("invalidfile");
    reveal_strlit("invaliddir");
    reveal_strlit("notpacked");
    reveal_strlit("batch");
    reveal_strlit("notsupported");
    reveal_strlit("missingexe");
    reveal_strlit("timeout");
    reveal_strlit("password");
    reveal_strlit("missingdef");
    reveal_strlit("movefailed");
    reveal_strlit("nofreespace");
    reveal_strlit("missingpart");
    reveal_strlit("failed");
    reveal_strlit("success");
    reveal_strlit("silent");
    reveal_strlit("trayexit");
    assert("syntax"@ =~= seq!['s', 'y', 'n', 't', 'a', 'x']);
    assert("fileinfo"@ =~= seq!['f', 'i', 'l', 'e', 'i', 'n', 'f', 'o']);
    assert("unknownexe"@ =~= seq!['u', 'n', 'k', 'n', 'o', 'w', 'n', 'e', 'x', 'e']);
    assert("unknownext"@ =~= seq!['u', 'n', 'k', 'n', 'o', 'w', 'n', 'e', 'x', 't']);
    assert("invalidfile"@ =~= seq!['i', 'n', 'v', 'a', 'l', 'i', 'd', 'f', 'i', 'l', 'e']);
    assert("invaliddir"@ =~= seq!['i', 'n', 'v', 'a', 'l', 'i', 'd', 'd', 'i', 'r']);
    assert("notpacked"@ =~= seq!['n', 'o', 't', 'p', 'a', 'c', 'k', 'e', 'd']);
    assert("batch"@ =~= seq!['b', 'a', 't', 'c', 'h']);
    assert("notsupported"@ =~= seq!['n', 'o', 't', 's', 'u', 'p', 'p', 'o', 'r', 't', 'e', 'd']);
    assert("missingexe"@ =~= seq!['m', 'i', 's', 's', 'i', 'n', 'g', 'e', 'x', 'e']);
    assert("timeout"@ =~= seq!['t', 'i', 'm', 'e', 'o', 'u', 't']);
    assert("password"@ =~= seq!['p', 'a', 's', 's', 'w', 'o', 'r', 'd']);
    assert("missingdef"@ =~= seq!['m', 'i', 's', 's', 'i', 'n', 'g', 'd', 'e', 'f']);
    assert("movefailed"@ =~= seq!['m', 'o', 'v', 'e', 'f', 'a', 'i', 'l', 'e', 'd']);
    assert("nofreespace"@ =~= seq!['n', 'o', 'f', 'r', 'e', 'e', 's', 'p', 'a', 'c', 'e']);
    assert("missingpart"@ =~= seq!['m', 'i', 's', 's', 'i', 'n', 'g', 'p', 'a', 'r', 't']);
    assert("failed"@ =~= seq!['f', 'a', 'i', 'l', 'e', 'd']);
    assert("success"@ =~= seq!['s', 'u', 'c', 'c', 'e', 's', 's']);
    assert("silent"@ =~= seq!['s', 'i', 'l', 'e', 'n', 't']);
    assert("trayexit"@ =~= seq!['t', 'r', 'a', 'y', 'e', 'x', 'i', 't']);
}

/// Different statuses are counted under different keys: two statuses
/// share a key only when both are `FileInfo` (whose fields do not
/// matter to the key).
pub proof fn lemma_status_key_injective(a: Status, b: Status)
    ensures
        status_key(a) == status_key(b) ==> a == b || (a is FileInfo && b is FileInfo),
{
    lemma_status_key_texts();
}

/// The key of every status is counted as an archive type by
/// `GUI_Stats` exactly for `MoveFailed`, `NoFreeSpace`, `MissingPart`
/// and `TrayExit`: its `Switch` has no case for those four keys.
pub proof fn lemma_status_keys_counted_as_archive_types(status: Status)
    ensures
        (stats_bucket(status_key(status)) == StatsBucket::ArchiveType) <==> (status == Status::MoveFailed
            || status == Status::NoFreeSpace || status == Status::MissingPart || status
            == Status::TrayExit),
{
    lemma_status_key_texts();
}

} // verus!
