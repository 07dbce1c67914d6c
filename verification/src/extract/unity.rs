//! Unity `.unitypackage` decoding: the conditional inner-tar extraction
//! and the per-asset destination handling of the rename loop. The primary
//! `.gz` extraction is a recursive dispatch the caller performs first.
use vstd::prelude::*;
use crate::file_arg::resolved_argument;
use crate::prefs::resolve_relative_path;
use crate::text::{has_substring, lowercase, owned, str_contains, to_lower};
use super::{inv, make_invocation, Invocation, InvocationView, WindowMode};

verus! {

/// The inner-tar extraction `Case $TYPE_UNITYPACKAGE` makes when the `.gz`
/// extraction produced an `archtemp.tar` (UniExtract.au3:3177): `<program>
/// x <tar_file>`, run in `tempoutdir`, minimized.
pub fn inner_tar_invocation(program: &str, tar_file: &str, tempoutdir: &str) -> (r: Invocation)
    ensures
        r@ == inv(program@, seq!["x"@, tar_file@], tempoutdir@, WindowMode::Minimized),
{
    let r = make_invocation(program, vec![owned("x"), owned(tar_file)], tempoutdir, WindowMode::Minimized);
    assert(r@.args =~= seq!["x"@, tar_file@]);
    r
}

/// The destination of one asset (UniExtract.au3:3196): `_PathFull($sName,
/// $outdir)` for the relative asset path read from the package.
pub fn resolve_asset_destination(pathname: &str, outdir: &str) -> (r: String)
    ensures
        r@ == resolved_argument(pathname@, outdir@),
{
    resolve_relative_path(pathname, outdir)
}

/// The safety check before moving an asset into place
/// (UniExtract.au3:3197): `StringInStr($sDestination, $outdir)`, a
/// case-insensitive substring test. This is the source's weak check,
/// not a path-prefix validation: `outdir` only has to occur somewhere in
/// `destination`.
pub fn is_destination_within_outdir(destination: &str, outdir: &str) -> (r: bool)
    ensures
        r == has_substring(lowercase(destination@), lowercase(outdir@)),
{
    let d = to_lower(destination);
    let o = to_lower(outdir);
    str_contains(d.as_str(), o.as_str())
}

} // verus!
