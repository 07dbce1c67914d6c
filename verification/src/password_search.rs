//! Archive password probing and password-list trial
//! (`_FindArchivePassword`, UniExtract.au3:4847-4877): whether a
//! probe's output shows the archive is encrypted, and trying each password
//! of a list until one's test output shows success. Running the probe and
//! test commands, and reading the password list, are the caller's.
use vstd::prelude::*;
use crate::text::{chars_of, has_substring, lowercase, owned, str_contains, string_from_range, to_lower};

verus! {

/// The start of the `k`-th `\r\n` (1-based) counted from the end of
/// `s[..end]`, searching right to left as `str::rmatch_indices` does.
pub open spec fn nth_crlf_from_end(s: Seq<char>, k: int, end: int) -> Option<int>
    decreases end,
{
    if end < 2 || end > s.len() || k < 1 {
        None
    } else if s[end - 2] == '\r' && s[end - 1] == '\n' {
        if k == 1 {
            Some(end - 2)
        } else {
            nth_crlf_from_end(s, k - 1, end - 2)
        }
    } else {
        nth_crlf_from_end(s, k, end - 1)
    }
}

/// `_StringGetLine($sString, $iLine)` for `$iLine < 0`
/// (UniExtract.au3:4577-4583): the text from the `(1 - line)`-th `\r\n`
/// counted from the end, or all of `s` when it has fewer.
pub open spec fn line_from_end(s: Seq<char>, line: int) -> Seq<char> {
    match nth_crlf_from_end(s, 1 - line, s.len() as int) {
        Some(p) => s.skip(p),
        None => s,
    }
}

/// The part of the probe output that is searched: all of it for
/// `line == 0`, else the tail [`line_from_end`] selects.
pub open spec fn searched_part(s: Seq<char>, line: int) -> Seq<char> {
    if line == 0 {
        s
    } else {
        line_from_end(s, line)
    }
}

/// The text [`line_from_end`] selects, for a negative `line` (the only
/// kind `_FindArchivePassword` passes).
pub fn nth_line_from_end(s: &str, line: i64) -> (r: String)
    requires
        line < 0,
    ensures
        r@ == line_from_end(s@, line as int),
{
    let v = chars_of(s);
    let ghost k0: int = 1 - line;
    let mut k: i128 = 1 - line as i128;
    let mut end: usize = v.len();
    while end >= 2
        invariant
            end <= v.len(),
            v@ == s@,
            k >= 1,
            k0 == 1 - line,
            nth_crlf_from_end(s@, k0, s@.len() as int) == nth_crlf_from_end(s@, k as int, end as int),
        decreases end,
    {
        if v[end - 2] == '\r' && v[end - 1] == '\n' {
            if k == 1 {
                assert(nth_crlf_from_end(s@, k as int, end as int) == Some((end - 2) as int));
                let r = string_from_range(&v, end - 2, v.len());
                assert(r@ =~= s@.skip(end - 2));
                return r;
            }
            k = k - 1;
            end = end - 2;
        } else {
            end = end - 1;
        }
    }
    owned(s)
}

/// The "is the archive encrypted" check of `_FindArchivePassword`
/// (UniExtract.au3:4850-4851): the searched part of the probe output
/// (see [`searched_part`]) contains `protected_text`, or the optional
/// second marker, ignoring case (`StringInStr`'s default). No call site
/// passes a positive `line`.
pub fn probe_shows_protected(probe_output: &str, line: i64, protected_text: &str, protected_text2: Option<&str>) -> (r: bool)
    requires
        line <= 0,
    ensures
        r == ({
            let lower = lowercase(searched_part(probe_output@, line as int));
            has_substring(lower, lowercase(protected_text@)) || match protected_text2 {
                Some(t) => has_substring(lower, lowercase(t@)),
                None => false,
            }
        }),
{
    let searched = if line == 0 {
        owned(probe_output)
    } else {
        nth_line_from_end(probe_output, line)
    };
    let lower = to_lower(searched.as_str());
    let p = to_lower(protected_text);
    if str_contains(lower.as_str(), p.as_str()) {
        return true;
    }
    match protected_text2 {
        Some(t) => {
            let t2 = to_lower(t);
            str_contains(lower.as_str(), t2.as_str())
        },
        None => false,
    }
}

/// Whether one password's test output shows success: it contains
/// `success_text`, ignoring case (UniExtract.au3:4868).
pub open spec fn shows_success(test_output: Seq<char>, success_text: Seq<char>) -> bool {
    has_substring(lowercase(test_output), lowercase(success_text))
}

/// The per-password success check (UniExtract.au3:4868).
pub fn test_output_shows_success(test_output: &str, success_text: &str) -> (r: bool)
    ensures
        r == shows_success(test_output@, success_text@),
{
    let o = to_lower(test_output);
    let t = to_lower(success_text);
    str_contains(o.as_str(), t.as_str())
}

/// Some run of `f` on `p` returned an output that does (`success`) or
/// does not show success.
pub open spec fn tried<F: Fn(&str) -> String>(f: F, p: &str, success_text: Seq<char>, success: bool) -> bool {
    exists|out: String| call_ensures(f, (p,), out) && shows_success(out@, success_text) == success
}

/// Every password of `passwords[..n]` was tried with an output that did
/// not show success.
pub open spec fn all_failed<F: Fn(&str) -> String>(f: F, passwords: Seq<String>, n: int, success_text: Seq<char>) -> bool {
    forall|j: int| 0 <= j < n ==> exists|q: &str| q@ == #[trigger] passwords[j]@ && tried(f, q, success_text, false)
}

/// The password-list trial loop of `_FindArchivePassword`
/// (UniExtract.au3:4862-4873): tries each password in order, running
/// `test_password` on it (the caller's test command) and stopping at the
/// first whose output shows success; `None` when the list is empty or
/// every password fails. What the callback returns is the caller's, so
/// the contract states what holds of the outputs it returned: the
/// password found is the first one, every earlier password's output
/// failed, and `None` means every password's output failed.
pub fn find_password<'a, F: Fn(&str) -> String>(
    passwords: &'a [String],
    success_text: &str,
    test_password: F,
) -> (r: Option<&'a str>)
    requires
        forall|p: &str| call_requires(test_password, (p,)),
    ensures
        match r {
            Some(p) => exists|i: int|
                0 <= i < passwords@.len() && p@ == #[trigger] passwords@[i]@ && tried(test_password, p, success_text@, true)
                    && all_failed(test_password, passwords@, i, success_text@),
            None => all_failed(test_password, passwords@, passwords@.len() as int, success_text@),
        },
{
    let ghost f0 = test_password;
    let mut i: usize = 0;
    while i < passwords.len()
        invariant
            i <= passwords.len(),
            f0 == test_password,
            forall|p: &str| call_requires(test_password, (p,)),
            all_failed(f0, passwords@, i as int, success_text@),
        decreases passwords.len() - i,
    {
        let p = passwords[i].as_str();
        let out = test_password(p);
        if test_output_shows_success(out.as_str(), success_text) {
            assert(tried(f0, p, success_text@, true));
            assert(p@ == passwords@[i as int]@);
            assert(exists|k: int|
                0 <= k < passwords@.len() && p@ == #[trigger] passwords@[k]@ && tried(test_password, p, success_text@, true)
                    && all_failed(test_password, passwords@, k, success_text@)) by {
                assert(p@ == passwords@[i as int]@);
            }
            return Some(p);
        }
        assert(tried(f0, p, success_text@, false));
        assert(p@ == passwords@[i as int]@);
        i += 1;
    }
    None
}

} // verus!
