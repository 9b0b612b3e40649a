//! The `apply_patch` tool: the result it reports for a patch run.

use vstd::prelude::*;
use crate::model::{
    ApplyPatchOutput, ContentView, FlaggedTextView, StructuredOutput, StructuredView, ToolResult,
    ToolResultView, structured_result, structured_result_view,
};
use crate::text::{decode_utf8_lossy, utf8_lossy};
use vstd::utf8::{decode_utf8, valid_utf8};

verus! {

/// `invalid cwd: `.
pub open spec fn invalid_cwd_prefix() -> Seq<char> {
    seq!['i', 'n', 'v', 'a', 'l', 'i', 'd', ' ', 'c', 'w', 'd', ':', ' ']
}

/// The non-empty ones of the two streams, joined by a line break.
pub open spec fn combined_output(out: Seq<char>, err: Seq<char>) -> Seq<char> {
    if out.len() == 0 {
        err
    } else if err.len() == 0 {
        out
    } else {
        out + seq!['\n'] + err
    }
}

/// The result of a patch run whose streams read as `out` and `err`.
pub open spec fn patch_result_view(out: Seq<char>, err: Seq<char>, applied: bool) -> ToolResultView {
    structured_result_view(
        StructuredView::ApplyPatch(FlaggedTextView { success: applied, output: combined_output(out, err) }),
        combined_output(out, err),
        !applied,
    )
}

/// Joins the non-empty ones of the applier's two streams with a line break.
pub fn combine_streams(out: &str, err: &str) -> (res: String)
    ensures
        res@ == combined_output(out@, err@),
{
    proof {
        reveal_strlit("\n");
        assert("\n"@ =~= seq!['\n']);
    }
    let mut res = String::new();
    if out.is_empty() {
        res.append(err);
        assert(res@ =~= err@);
    } else if err.is_empty() {
        res.append(out);
        assert(res@ =~= out@);
    } else {
        res.append(out);
        res.append("\n");
        res.append(err);
        assert(res@ =~= out@ + seq!['\n'] + err@);
    }
    res
}

/// The result of a patch run given the applier's streams as text: the combined
/// streams are both the text and the structured output, and the result is an error
/// exactly when the patch did not apply.
pub fn patch_report(out: &str, err: &str, applied: bool) -> (res: ToolResult)
    ensures
        res@ == patch_result_view(out@, err@, applied),
{
    let combined = combine_streams(out, err);
    let text = combined.clone();
    let structured = ApplyPatchOutput { success: applied, output: combined };
    structured_result(StructuredOutput::ApplyPatch(structured), text, !applied)
}

/// The result of a patch run: the applier's stdout and stderr bytes, read as UTF-8
/// with invalid sequences replaced, and whether the patch applied.
pub fn apply_patch_result(stdout: &[u8], stderr: &[u8], applied: bool) -> (res: ToolResult)
    ensures
        res@ == patch_result_view(utf8_lossy(stdout@), utf8_lossy(stderr@), applied),
        valid_utf8(stdout@) && valid_utf8(stderr@) ==> res@ == patch_result_view(
            decode_utf8(stdout@),
            decode_utf8(stderr@),
            applied,
        ),
        (res@.content[0] == ContentView::Text(Seq::<char>::empty())) <==> (stdout@.len() == 0
            && stderr@.len() == 0),
{
    let out = decode_utf8_lossy(stdout);
    let err = decode_utf8_lossy(stderr);
    let res = patch_report(out.as_str(), err.as_str(), applied);
    assert(combined_output(out@, err@).len() == 0 <==> (out@.len() == 0 && err@.len() == 0));
    assert(res@.content[0] == ContentView::Text(combined_output(out@, err@)));
    assert((combined_output(out@, err@) == Seq::<char>::empty()) <==> (combined_output(out@, err@).len() == 0));
    res
}

/// The result reported when the requested patch directory cannot be used;
/// `message` is the reason. Like every patch result it carries a structured output,
/// reporting no success and the same text.
pub open spec fn cwd_error_view(message: Seq<char>) -> ToolResultView {
    structured_result_view(
        StructuredView::ApplyPatch(FlaggedTextView { success: false, output: invalid_cwd_prefix() + message }),
        invalid_cwd_prefix() + message,
        true,
    )
}

/// The result reported when the requested patch directory cannot be used;
/// `message` is the reason.
pub fn cwd_error_result(message: &str) -> (res: ToolResult)
    ensures
        res@ == cwd_error_view(message@),
        res@.structured_content is Some,
{
    proof {
        reveal_strlit("invalid cwd: ");
        assert("invalid cwd: "@ =~= invalid_cwd_prefix());
    }
    let mut text = String::from_str("invalid cwd: ");
    text.append(message);
    let structured = ApplyPatchOutput { success: false, output: text.clone() };
    structured_result(StructuredOutput::ApplyPatch(structured), text, true)
}

} // verus!
