//! Feedback dialog and submission (UniExtract.au3:6756-6935): when the
//! sample file is logged, the outdated-version warning, the report text,
//! and the multipart POST body. Everything here formats caller-supplied
//! values; sending the request, compressing and the privacy consent are
//! the caller's.
use vstd::prelude::*;
use vstd::string::StringSliceAdditionalSpecFns;
use crate::text::{
    ascii_lower_seq, eq_ignore_ascii_case, has_substring, owned, str_contains, str_eq_ignore_ascii_case,
    str_equal, to_ascii_lower,
};
use crate::extract::cat2;

verus! {

/// Attaching a non-executable sample file triggers a hex dump of its
/// first 1024 bytes as soon as the dialog opens (UniExtract.au3:6760-6766).
pub fn should_hex_dump_sample_file(has_file: bool, is_exe: bool) -> (r: bool)
    ensures
        r == (has_file && !is_exe),
{
    has_file && !is_exe
}

/// Any attached file's metadata is logged (UniExtract.au3:6763-6764).
pub fn should_log_file_metadata(has_file: bool) -> (r: bool)
    ensures
        r == has_file,
{
    has_file
}

/// Opening the dialog with a file disables future feedback prompts
/// (UniExtract.au3:6765), whether or not anything is sent.
pub fn should_disable_future_feedback_prompt(has_file: bool) -> (r: bool)
    ensures
        r == has_file,
{
    has_file
}

/// The main executable differs from the update index's entry: its size
/// or its MD5 is not the one listed.
pub open spec fn executable_differs(local_size: i64, index_size: i64, local_md5: Seq<char>, index_md5: Seq<char>) -> bool {
    local_size != index_size || local_md5 != index_md5
}

/// The outdated-version check in the dialog (UniExtract.au3:6801-6802):
/// the update index was fetched and the local executable's size or MD5
/// differs from it.
pub fn should_show_outdated_warning(
    index_fetch_succeeded: bool,
    local_size: i64,
    index_size: i64,
    local_md5: &str,
    index_md5: &str,
) -> (r: bool)
    ensures
        r == (index_fetch_succeeded && executable_differs(local_size, index_size, local_md5@, index_md5@)),
{
    index_fetch_succeeded && (local_size != index_size || !str_equal(local_md5, index_md5))
}

/// `GUI_Feedback_Send` rejects a submission whose three fields are all
/// empty (UniExtract.au3:6861).
pub fn should_reject_empty_feedback(file: &str, output: &str, message: &str) -> (r: bool)
    ensures
        r == (file@.len() == 0 && output@.len() == 0 && message@.len() == 0),
{
    file.is_empty() && output.is_empty() && message.is_empty()
}

/// The fields of the report body (UniExtract.au3:6867-6875).
pub struct FeedbackReport<'a> {
    pub app_name: &'a str,
    pub app_version: &'a str,
    pub exe_timestamp: &'a str,
    pub window_title: &'a str,
    pub sys_info: &'a str,
    pub sample_file: &'a str,
    pub file_size: &'a str,
    pub file_hash: &'a str,
    pub file_type: &'a str,
    pub message: &'a str,
    pub output_log: &'a str,
    pub guid: &'a str,
}

/// The 100-dash separator line of the report.
pub const SEPARATOR: &'static str = "----------------------------------------------------------------------------------------------------";

/// The report text, `$FB_Text` (UniExtract.au3:6867-6875).
pub open spec fn feedback_text(r: FeedbackReport) -> Seq<char> {
    r.app_name@ + " Feedback v"@ + r.app_version@ + " ("@ + r.exe_timestamp@ + ")\r\n"@ + SEPARATOR@ + "\r\n\r\n"@
        + "System Information: "@ + r.window_title@ + ", "@ + r.sys_info@ + "\r\n\r\n"@ + "Sample file: "@
        + r.sample_file@ + "\r\n"@ + "File size: "@ + r.file_size@ + "\r\n"@ + "File hash: "@ + r.file_hash@
        + "\r\n\r\n"@ + "File type: "@ + r.file_type@ + "\r\n\r\n"@ + "Message: "@ + r.message@ + "\r\n\r\n"@
        + SEPARATOR@ + "\r\n\r\n"@ + "Output:\r\n"@ + r.output_log@ + "\r\n\r\n"@ + SEPARATOR@ + "\r\n"@
        + "Sent by: \r\n"@ + r.guid@
}

/// The report text with its exact separators and `\r\n` line endings
/// (UniExtract.au3:6867-6875).
pub fn build_feedback_text(report: &FeedbackReport<'_>) -> (r: String)
    ensures
        r@ == feedback_text(*report),
{
    let mut t = owned(report.app_name);
    t.append(" Feedback v");
    t.append(report.app_version);
    t.append(" (");
    t.append(report.exe_timestamp);
    t.append(")\r\n");
    t.append(SEPARATOR);
    t.append("\r\n\r\n");
    t.append("System Information: ");
    t.append(report.window_title);
    t.append(", ");
    t.append(report.sys_info);
    t.append("\r\n\r\n");
    t.append("Sample file: ");
    t.append(report.sample_file);
    t.append("\r\n");
    t.append("File size: ");
    t.append(report.file_size);
    t.append("\r\n");
    t.append("File hash: ");
    t.append(report.file_hash);
    t.append("\r\n\r\n");
    t.append("File type: ");
    t.append(report.file_type);
    t.append("\r\n\r\n");
    t.append("Message: ");
    t.append(report.message);
    t.append("\r\n\r\n");
    t.append(SEPARATOR);
    t.append("\r\n\r\n");
    t.append("Output:\r\n");
    t.append(report.output_log);
    t.append("\r\n\r\n");
    t.append(SEPARATOR);
    t.append("\r\n");
    t.append("Sent by: \r\n");
    t.append(report.guid);
    t
}

/// `$bUseGzip` (UniExtract.au3:6879): the language contains "chinese" or
/// is "japanese" (ASCII case ignored, as AutoIt compares), or the text is
/// over 1 MiB.
pub fn should_use_gzip(language: &str, text_byte_len: usize) -> (r: bool)
    ensures
        r == (has_substring(ascii_lower_seq(language@), "chinese"@) || eq_ignore_ascii_case(language@, "japanese"@)
            || text_byte_len > 1024 * 1024),
{
    let lower = to_ascii_lower(language);
    str_contains(lower.as_str(), "chinese") || str_eq_ignore_ascii_case(language, "japanese") || text_byte_len
        > 1024 * 1024
}

/// The multipart boundary token with its `--` prefix (UniExtract.au3:6877).
pub const MULTIPART_BOUNDARY: &'static str = "--UniExtractLog";

/// The boundary as the `Content-Type` header carries it, without `--`
/// (UniExtract.au3:6900).
pub fn multipart_boundary_header_value() -> (r: &'static str)
    ensures
        r@ == "UniExtractLog"@,
{
    "UniExtractLog"
}

/// The `Content-Type` request header (UniExtract.au3:6900).
pub fn build_multipart_content_type_header() -> (r: String)
    ensures
        r@ == "multipart/form-data; boundary="@ + "UniExtractLog"@,
{
    cat2("multipart/form-data; boundary=", multipart_boundary_header_value())
}

/// The feedback part: plain text, or bytes the caller already compressed.
pub enum FeedbackBodyEncoding<'a> {
    Plain(&'a str),
    Gzip(&'a [u8]),
}

/// Appends `bytes` to `v`.
fn append_bytes(v: &mut Vec<u8>, bytes: &[u8])
    ensures
        final(v)@ == old(v)@ + bytes@,
{
    let mut i: usize = 0;
    while i < bytes.len()
        invariant
            i <= bytes.len(),
            v@ == old(v)@ + bytes@.take(i as int),
        decreases bytes.len() - i,
    {
        v.push(bytes[i]);
        assert(bytes@.take(i + 1) =~= bytes@.take(i as int).push(bytes@[i as int]));
        i += 1;
    }
    assert(bytes@.take(bytes@.len() as int) =~= bytes@);
}

/// Appends the UTF-8 bytes of `s` to `v`.
fn append_str(v: &mut Vec<u8>, s: &str)
    ensures
        final(v)@ == old(v)@ + s.spec_bytes(),
{
    append_bytes(v, s.as_bytes());
}

/// The bytes of the wrapped feedback part.
pub open spec fn wrapped_part(encoding: FeedbackBodyEncoding) -> Seq<u8> {
    match encoding {
        FeedbackBodyEncoding::Plain(text) => "Content-Type: text/plain\r\n\r\n".spec_bytes() + text.spec_bytes(),
        FeedbackBodyEncoding::Gzip(bytes) => "Content-Type: gzip\r\n\r\n".spec_bytes() + bytes@,
    }
}

/// The `Content-Type: text/plain` / `Content-Type: gzip` wrapping
/// (UniExtract.au3:6881-6885), as UTF-8 bytes.
pub fn wrap_feedback_part(encoding: &FeedbackBodyEncoding<'_>) -> (r: Vec<u8>)
    ensures
        r@ == wrapped_part(*encoding),
{
    let mut out: Vec<u8> = Vec::new();
    match encoding {
        FeedbackBodyEncoding::Plain(text) => {
            append_str(&mut out, "Content-Type: text/plain\r\n\r\n");
            append_str(&mut out, text);
        },
        FeedbackBodyEncoding::Gzip(bytes) => {
            append_str(&mut out, "Content-Type: gzip\r\n\r\n");
            append_bytes(&mut out, bytes);
        },
    }
    out
}

/// The multipart body (UniExtract.au3:6887-6888).
pub open spec fn multipart_body(wrapped: Seq<u8>, guid: &str) -> Seq<u8> {
    MULTIPART_BOUNDARY.spec_bytes() + "\r\n".spec_bytes()
        + "Content-Disposition: form-data; name=\"file\"; filename=\"UE_Feedback\"\r\n".spec_bytes() + wrapped
        + "\r\n".spec_bytes() + MULTIPART_BOUNDARY.spec_bytes() + "\r\n".spec_bytes()
        + "Content-Disposition: form-data; name=\"id\"\r\n\r\n".spec_bytes() + guid.spec_bytes() + "\r\n".spec_bytes()
        + MULTIPART_BOUNDARY.spec_bytes() + "--".spec_bytes()
}

/// The full multipart body: a `file` part carrying the wrapped feedback,
/// an `id` part carrying the GUID, and the closing boundary.
pub fn build_multipart_body(wrapped_feedback_part: &[u8], guid: &str) -> (r: Vec<u8>)
    ensures
        r@ == multipart_body(wrapped_feedback_part@, guid),
{
    let mut body: Vec<u8> = Vec::new();
    append_str(&mut body, MULTIPART_BOUNDARY);
    append_str(&mut body, "\r\n");
    append_str(&mut body, "Content-Disposition: form-data; name=\"file\"; filename=\"UE_Feedback\"\r\n");
    append_bytes(&mut body, wrapped_feedback_part);
    append_str(&mut body, "\r\n");
    append_str(&mut body, MULTIPART_BOUNDARY);
    append_str(&mut body, "\r\n");
    append_str(&mut body, "Content-Disposition: form-data; name=\"id\"\r\n\r\n");
    append_str(&mut body, guid);
    append_str(&mut body, "\r\n");
    append_str(&mut body, MULTIPART_BOUNDARY);
    append_str(&mut body, "--");
    body
}

/// `If $sResponse = "1"` (UniExtract.au3:6914): only the exact body `1`
/// counts as success; the HTTP status is never checked.
pub fn feedback_submission_succeeded(response_text: &str) -> (r: bool)
    ensures
        r == (response_text@ == "1"@),
{
    str_equal(response_text, "1")
}

/// `GUI_Feedback_Error`'s message (UniExtract.au3:6919): the recorded COM
/// error, or a fixed text when none was recorded.
pub fn resolve_feedback_error_message(com_error: Option<&str>) -> (r: String)
    ensures
        r@ == (match com_error {
            Some(t) => t@,
            None => "Invalid response from server"@,
        }),
{
    match com_error {
        None => owned("Invalid response from server"),
        Some(text) => owned(text),
    }
}

} // verus!
