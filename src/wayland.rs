//! What the `wl-paste` and `wl-copy` utilities' results mean.
//!
//! The caller runs the utility and hands over how it ended; these functions
//! decide what the clipboard operation returns.

use crate::text::{contains_text, has_substring, join};
use vstd::prelude::*;
use vstd::string::*;
use vstd::utf8::{decode_utf8, valid_utf8};

verus! {

/// How a run of a clipboard utility ended.
#[derive(Debug)]
pub struct ToolOutput {
    /// It exited with status 0.
    pub success: bool,
    /// What it wrote to standard output.
    pub stdout: Vec<u8>,
    /// What it wrote to standard error, as text.
    pub stderr: String,
}

/// Relies on `String::from_utf8`: the text that the bytes encode when they
/// are valid UTF-8, else the error's description.
#[verifier::external_body]
fn utf8_text(bytes: Vec<u8>) -> (r: Result<String, String>)
    ensures
        r is Ok <==> valid_utf8(bytes@),
        r matches Ok(s) ==> s@ == decode_utf8(bytes@),
{
    String::from_utf8(bytes).map_err(|e| e.to_string())
}

/// The paste utility's report of an empty clipboard: its words, or silence.
pub open spec fn reports_no_selection(stderr: Seq<char>) -> bool {
    has_substring(stderr, "No selection"@) || stderr.len() == 0
}

/// The error for a utility that could not be started.
pub fn launch_failure(tool: &str, detail: &str) -> (r: String)
    ensures
        r@ == "Failed to execute "@ + tool@ + " (is wl-clipboard installed?): "@ + detail@,
{
    let head = join("Failed to execute ", tool);
    let head = join(head.as_str(), " (is wl-clipboard installed?): ");
    join(head.as_str(), detail)
}

/// The text that a text paste read: the output as UTF-8 on success; an
/// empty text where the utility reports no selection; else its error.
pub fn paste_text_result(out: ToolOutput) -> (r: Result<String, String>)
    ensures
        out.success && valid_utf8(out.stdout@) ==> (r matches Ok(t) && t@ == decode_utf8(out.stdout@)),
        out.success && !valid_utf8(out.stdout@) ==> (r matches Err(e) && has_substring(
            e@,
            "Invalid UTF-8 in clipboard: "@,
        )),
        !out.success && reports_no_selection(out.stderr@) ==> (r matches Ok(t) && t@.len() == 0),
        !out.success && !reports_no_selection(out.stderr@) ==> (r matches Err(e) && e@
            == "wl-paste failed: "@ + out.stderr@),
{
    if out.success {
        match utf8_text(out.stdout) {
            Ok(t) => Ok(t),
            Err(d) => {
                let e = join("Invalid UTF-8 in clipboard: ", d.as_str());
                proof {
                    let p = "Invalid UTF-8 in clipboard: "@;
                    assert(e@.subrange(0, p.len() as int) =~= p);
                    assert(crate::text::occurs_at(e@, p, 0));
                }
                Err(e)
            },
        }
    } else if contains_text(out.stderr.as_str(), "No selection") || out.stderr.unicode_len() == 0 {
        Ok(String::new())
    } else {
        Err(join("wl-paste failed: ", out.stderr.as_str()))
    }
}

/// Whether a listing of the clipboard's MIME types offers an image.
pub fn offers_image(types: &str) -> (r: bool)
    ensures
        r == has_substring(types@, "image/"@),
{
    contains_text(types, "image/")
}

/// The PNG bytes that an image paste read: the output when the utility
/// succeeded with some; otherwise no image.
pub fn paste_image_result(out: ToolOutput) -> (r: Option<Vec<u8>>)
    ensures
        out.success && out.stdout@.len() > 0 ==> (r matches Some(b) && b@ == out.stdout@),
        !(out.success && out.stdout@.len() > 0) ==> r is None,
{
    if out.success && out.stdout.len() > 0 {
        Some(out.stdout)
    } else {
        None
    }
}

/// The result of a copy: success, or the utility's error.
pub fn copy_result(out: &ToolOutput) -> (r: Result<(), String>)
    ensures
        out.success ==> r is Ok,
        !out.success ==> (r matches Err(e) && e@ == "wl-copy failed: "@ + out.stderr@),
{
    if out.success {
        Ok(())
    } else {
        Err(join("wl-copy failed: ", out.stderr.as_str()))
    }
}

} // verus!
