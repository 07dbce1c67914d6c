//! About dialog: the one decision inside `GUI_About`
//! (UniExtract.au3:8084-8104), the high-contrast logo swap.
use vstd::prelude::*;

verus! {

/// The logo asset (UniExtract.au3:8096): `BioruebeWhite.png` in
/// high-contrast mode, `Bioruebe.png` otherwise.
pub fn resolve_about_logo_filename(high_contrast_mode: bool) -> (r: &'static str)
    ensures
        r@ == (if high_contrast_mode { "BioruebeWhite.png"@ } else { "Bioruebe.png"@ }),
{
    if high_contrast_mode {
        "BioruebeWhite.png"
    } else {
        "Bioruebe.png"
    }
}

} // verus!
