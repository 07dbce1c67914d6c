//! Scan-only file-type report formatting: `_FiletypeGet()`
//! (UniExtract.au3:5292-5313) and the silent-mode file-scan log
//! entry (UniExtract.au3:4139-4142). Each detector that ran adds one
//! `(scanner, type)` pair; the report joins them.
use vstd::prelude::*;
use crate::text::{owned, repeat, repeat_str};
use crate::extract::cat3;

verus! {

/// One scanner's contribution: its display name and the type text it
/// produced (one row of the source's `$aFiletype`).
pub struct ScannerResult<'a> {
    pub scanner: &'a str,
    pub type_text: &'a str,
}

/// The views of a list of scanner results, as `(scanner, type_text)`.
pub open spec fn results_view(entries: Seq<ScannerResult>) -> Seq<(Seq<char>, Seq<char>)> {
    entries.map_values(|e: ScannerResult| (e.scanner@, e.type_text@))
}

/// The header line of one scanner: with a positive `width`, the name
/// padded with one space each side and centred between two runs of `-`
/// of length `Floor((width - len(" name ")) / 2)` (none when that is not
/// positive); otherwise the bare name.
pub open spec fn scanner_header(scanner: Seq<char>, width: i64) -> Seq<char> {
    if width > 0 {
        let padded = " "@ + scanner + " "@;
        let padding_len = (width - padded.len()) / 2;
        let padding = if padding_len > 0 {
            repeat("-"@, padding_len as nat)
        } else {
            Seq::empty()
        };
        padding + padded + padding
    } else {
        scanner
    }
}

/// One entry's block of the report.
pub open spec fn entry_block(e: (Seq<char>, Seq<char>), with_header: bool, width: i64) -> Seq<char> {
    if with_header {
        scanner_header(e.0, width) + "\r\n\r\n"@ + e.1
    } else {
        e.1
    }
}

/// The whole report: the blocks in order, each one after the first
/// preceded by a blank line (`@CRLF & @CRLF`) once the text so far is not
/// empty.
pub open spec fn filetype_report(es: Seq<(Seq<char>, Seq<char>)>, with_header: bool, width: i64) -> Seq<char>
    decreases es.len(),
{
    if es.len() == 0 {
        Seq::empty()
    } else {
        let prev = filetype_report(es.drop_last(), with_header, width);
        let sep = if prev.len() > 0 {
            "\r\n\r\n"@
        } else {
            Seq::empty()
        };
        prev + sep + entry_block(es.last(), with_header, width)
    }
}

/// The header of one scanner, as [`scanner_header`] describes it.
fn build_header(scanner: &str, width: i64) -> (r: String)
    requires
        width <= usize::MAX,
    ensures
        r@ == scanner_header(scanner@, width),
{
    if width > 0 {
        let padded = cat3(" ", scanner, " ");
        let n = padded.as_str().unicode_len();
        let diff: i128 = width as i128 - n as i128;
        let padding = if diff >= 2 {
            repeat_str("-", (diff / 2) as usize)
        } else {
            String::new()
        };
        let mut r = owned(padding.as_str());
        r.append(padded.as_str());
        r.append(padding.as_str());
        r
    } else {
        owned(scanner)
    }
}

/// `_FiletypeGet($bHeader, $iWidth)` (UniExtract.au3:5292-5313): the
/// entries joined by a blank line; without header each contributes only
/// its type text, with header a centred dashed header line (see
/// [`scanner_header`]) and a blank line come first. With a header the
/// dash count must fit in `usize`, which bounds `width` on 32-bit
/// targets; without one `width` is not used.
pub fn format_filetype_results(entries: &[ScannerResult], with_header: bool, width: i64) -> (r: String)
    requires
        with_header ==> width <= usize::MAX,
    ensures
        r@ == filetype_report(results_view(entries@), with_header, width),
{
    let mut result = String::new();
    let mut i: usize = 0;
    while i < entries.len()
        invariant
            i <= entries.len(),
            with_header ==> width <= usize::MAX,
            result@ == filetype_report(results_view(entries@).take(i as int), with_header, width),
        decreases entries.len() - i,
    {
        let entry = &entries[i];
        proof {
            let es = results_view(entries@).take(i + 1);
            assert(es.drop_last() =~= results_view(entries@).take(i as int));
            assert(es.last() == (entry.scanner@, entry.type_text@));
        }
        if !result.as_str().is_empty() {
            result.append("\r\n\r\n");
        }
        if with_header {
            let header = build_header(entry.scanner, width);
            result.append(header.as_str());
            result.append("\r\n\r\n");
        }
        result.append(entry.type_text);
        i += 1;
    }
    assert(results_view(entries@).take(entries@.len() as int) =~= results_view(entries@));
    result
}

/// The silent-mode file-scan log block (UniExtract.au3:4139-4142):
/// the file, a blank line, the plain report, then a line of 60 dashes.
pub fn build_scan_log_entry(file: &str, filetype: &str) -> (r: String)
    ensures
        r@ == file@ + "\r\n\r\n"@ + filetype@ + "\r\n"@ + repeat("-"@, 60) + "\r\n"@,
{
    let mut r = owned(file);
    r.append("\r\n\r\n");
    r.append(filetype);
    r.append("\r\n");
    let dashes = repeat_str("-", 60);
    r.append(dashes.as_str());
    r.append("\r\n");
    r
}

} // verus!
