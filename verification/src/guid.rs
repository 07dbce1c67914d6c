//! Per-install GUID shaping (UniExtract.au3:157,335-341,776): trimming,
//! truncation and the version-tag prefix. The entropy sources
//! (`_WinAPI_CreateGUID()` and the encrypted fallback) are the caller's.
use vstd::prelude::*;
use crate::extract::cat3;
use crate::text::{all_ws, chars_of, is_blank_str, string_from_range};

verus! {

/// `$sOptGuid = "" Or StringIsSpace($sOptGuid)` (UniExtract.au3:335): a
/// GUID is regenerated when the loaded value is empty or all whitespace.
pub fn should_generate_new_guid(loaded_guid: &str) -> (r: bool)
    ensures
        r == all_ws(loaded_guid@),
{
    is_blank_str(loaded_guid)
}

/// `raw` without its first and last character; empty when it has fewer
/// than two.
pub open spec fn strip_ends(raw: Seq<char>) -> Seq<char> {
    if raw.len() < 2 {
        Seq::empty()
    } else {
        raw.subrange(1, raw.len() - 1)
    }
}

/// `StringTrimLeft(StringTrimRight(_WinAPI_CreateGUID(), 1), 1)`
/// (UniExtract.au3:336): removes exactly one character from each end,
/// whatever they are (the braces of a real GUID).
pub fn strip_guid_braces(raw_guid: &str) -> (r: String)
    ensures
        r@ == strip_ends(raw_guid@),
{
    let v = chars_of(raw_guid);
    if v.len() < 2 {
        return String::new();
    }
    string_from_range(&v, 1, v.len() - 1)
}

/// The last 25 characters of `s`, or all of it when shorter.
pub open spec fn last_25(s: Seq<char>) -> Seq<char> {
    if s.len() <= 25 {
        s
    } else {
        s.skip(s.len() - 25)
    }
}

/// The fallback ID's truncation (UniExtract.au3:337):
/// `StringRight(String(_Crypt_EncryptData(...)), 25)`. The fallback's
/// two `Random()` seeds carry little entropy; only the shape is kept
/// here: the last 25 characters of the encrypted output.
pub fn fallback_guid_from_encrypted_output(encrypted_output: &str) -> (r: String)
    ensures
        r@ == last_25(encrypted_output@),
{
    let v = chars_of(encrypted_output);
    let skip = if v.len() > 25 {
        v.len() - 25
    } else {
        0
    };
    let r = string_from_range(&v, skip, v.len());
    assert(v.len() <= 25 ==> v@.subrange(0, v@.len() as int) =~= v@);
    r
}

/// The primary-then-fallback dispatch (UniExtract.au3:336-337): the
/// stripped WinAPI GUID when that is not empty, otherwise whatever the
/// lazily run `fallback` produces (it is not run at all when the primary
/// result is usable).
pub fn resolve_guid_body<F: FnOnce() -> String>(winapi_raw: Option<&str>, fallback: F) -> (r: String)
    requires
        fallback.requires(()),
    ensures
        ({
            let stripped = match winapi_raw {
                Some(w) => strip_ends(w@),
                None => Seq::<char>::empty(),
            };
            if stripped.len() > 0 {
                r@ == stripped
            } else {
                fallback.ensures((), r)
            }
        }),
{
    let stripped = match winapi_raw {
        Some(w) => strip_guid_braces(w),
        None => String::new(),
    };
    if stripped.as_str().is_empty() {
        fallback()
    } else {
        stripped
    }
}

/// `$sVersionId` (UniExtract.au3:70): the version-family tag baked into
/// the GUID on first generation.
pub const VERSION_ID: &'static str = "2R4";

/// `$sOptGuid = $sVersionId & "-" & $sOptGuid` (UniExtract.au3:338).
pub fn build_guid_with_version_prefix(version_id: &str, guid_body: &str) -> (r: String)
    ensures
        r@ == version_id@ + "-"@ + guid_body@,
{
    cat3(version_id, "-", guid_body)
}

} // verus!
