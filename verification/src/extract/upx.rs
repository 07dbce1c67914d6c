//! UPX (`upx.exe`) — decompressing UPX-packed executables.
use vstd::prelude::*;
use crate::text::owned;
use super::{inv, make_invocation, Invocation, InvocationView, WindowMode};

verus! {

/// The invocation `Case $PACKER_UPX` (UniExtract.au3:3617-3623) makes:
/// `<program> -d -k <file>`, run in `file_dir`, minimized.
pub fn invocation(program: &str, file: &str, file_dir: &str) -> (r: Invocation)
    ensures
        r@ == inv(program@, seq!["-d"@, "-k"@, file@], file_dir@, WindowMode::Minimized),
{
    let r = make_invocation(program, vec![owned("-d"), owned("-k"), owned(file)], file_dir, WindowMode::Minimized);
    assert(r@.args =~= seq!["-d"@, "-k"@, file@]);
    r
}

} // verus!
