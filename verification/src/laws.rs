//! Properties that hold across the tools' results.

use vstd::prelude::*;
use crate::encoding::{base64_decode, base64_encode, lemma_base64_round_trip};
use crate::image::{
    ascii_lower, image_gif, image_jpeg, image_png, image_webp, ascii_lowercase, image_result_view, mime_for_extension, read_failure_prefix,
    unsupported_prefix,
};
use crate::model::{ContentView, text_result_view};
use crate::model::{StructuredView, ToolResultView};
use crate::patch::{combined_output, cwd_error_view, patch_result_view};
use crate::shell::{
    ExecOutcome, bash_argv, exit_code_opening, shell_result_view, shell_text, timed_out_prefix,
    workdir_error_view,
};
use crate::subagent::{SubagentRun, failure_closing, failure_opening, subagent_args, subagent_result_view};
use crate::text::{decimal, digit_char, int_decimal};

verus! {

/// A shell result is flagged as an error exactly when its structured output reports
/// a nonzero exit code or a timeout, for finished runs and for runs that failed to start.
pub proof fn law_shell_error_flag(outcome: ExecOutcome)
    ensures
        shell_result_view(outcome).structured_content matches Some(StructuredView::Shell(o))
            && shell_result_view(outcome).is_error == Some(o.exit_code != 0 || o.timed_out),
{
}

/// The text of a finished shell run contains the run's output unchanged.
pub proof fn law_shell_text_contains_output(output: Seq<char>, exit_code: i32, timed_out: bool)
    ensures
        exists|i: int|
            0 <= i && i + output.len() <= shell_text(output, exit_code, timed_out).len()
                && #[trigger] shell_text(output, exit_code, timed_out).subrange(i, i + output.len())
                == output,
{
    let text = shell_text(output, exit_code, timed_out);
    let i: int = if timed_out { timed_out_prefix().len() as int } else { 0 };
    assert(text.subrange(i, i + output.len()) =~= output);
}

/// A timed-out run's text starts with the timeout notice; a run that exited with code
/// zero in time reports exactly its output.
pub proof fn law_shell_text_marks(output: Seq<char>, exit_code: i32, timed_out: bool)
    ensures
        timed_out ==> shell_text(output, exit_code, timed_out).subrange(0, timed_out_prefix().len() as int)
            == timed_out_prefix(),
        (!timed_out && exit_code == 0) ==> shell_text(output, exit_code, timed_out) == output,
{
    if timed_out {
        let text = shell_text(output, exit_code, timed_out);
        assert(text.subrange(0, timed_out_prefix().len() as int) =~= timed_out_prefix());
    }
}

/// The tools that declare an output schema return structured content matching it on
/// every path: `shell_command` a shell output, `apply_patch` a patch output whose text
/// is shown to clients, and `subagent` a subagent output, also when the requested
/// directory cannot be used.
pub proof fn law_schema_tools_structured(
    outcome: ExecOutcome,
    out: Seq<char>,
    err: Seq<char>,
    applied: bool,
    run: SubagentRun,
    last_message: Seq<char>,
    message: Seq<char>,
)
    ensures
        shell_result_view(outcome).structured_content matches Some(StructuredView::Shell(_)),
        workdir_error_view(message).structured_content matches Some(StructuredView::Shell(o))
            && workdir_error_view(message).is_error == Some(o.exit_code != 0 || o.timed_out),
        patch_result_view(out, err, applied).structured_content matches Some(StructuredView::ApplyPatch(_)),
        cwd_error_view(message).structured_content matches Some(StructuredView::ApplyPatch(o))
            && cwd_error_view(message).content[0] == ContentView::Text(o.output)
            && cwd_error_view(message).is_error == Some(!o.success),
        subagent_result_view(run, last_message).structured_content matches Some(StructuredView::Subagent(_)),
{
}

/// Every tool result carries exactly one content block.
pub proof fn law_single_content_block(
    outcome: ExecOutcome,
    out: Seq<char>,
    err: Seq<char>,
    applied: bool,
    run: SubagentRun,
    last_message: Seq<char>,
)
    ensures
        shell_result_view(outcome).content.len() == 1,
        patch_result_view(out, err, applied).content.len() == 1,
        subagent_result_view(run, last_message).content.len() == 1,
{
}

/// For patch runs and delegated runs the text shown to clients is the structured
/// output's text, and the result is an error exactly when the output reports no success.
pub proof fn law_text_matches_structured(
    out: Seq<char>,
    err: Seq<char>,
    applied: bool,
    run: SubagentRun,
    last_message: Seq<char>,
)
    ensures
        patch_result_view(out, err, applied).structured_content matches Some(StructuredView::ApplyPatch(o))
            && patch_result_view(out, err, applied).content[0] == crate::model::ContentView::Text(o.output)
            && patch_result_view(out, err, applied).is_error == Some(!o.success)
            && o.success == applied,
        subagent_result_view(run, last_message).structured_content matches Some(StructuredView::Subagent(o))
            && subagent_result_view(run, last_message).content[0] == crate::model::ContentView::Text(o.output)
            && subagent_result_view(run, last_message).is_error == Some(!o.success),
{
}

/// The combined patch output is empty only when both streams are, and it keeps each
/// stream: stdout at its start and stderr at its end.
pub proof fn law_combined_output_keeps_streams(out: Seq<char>, err: Seq<char>)
    ensures
        (combined_output(out, err).len() == 0) <==> (out.len() == 0 && err.len() == 0),
        combined_output(out, err).subrange(0, out.len() as int) == out,
        combined_output(out, err).subrange(
            combined_output(out, err).len() - err.len(),
            combined_output(out, err).len() as int,
        ) == err,
{
    let c = combined_output(out, err);
    assert(c.subrange(0, out.len() as int) =~= out);
    assert(c.subrange(c.len() - err.len(), c.len() as int) =~= err);
}

/// ASCII lower-casing is idempotent.
pub proof fn law_ascii_lowercase_idempotent(s: Seq<char>)
    ensures
        ascii_lowercase(ascii_lowercase(s)) == ascii_lowercase(s),
{
    assert forall|i: int| 0 <= i < s.len() implies #[trigger] ascii_lower(ascii_lower(s[i])) == ascii_lower(s[i]) by {
        let c = s[i];
        if 65 <= (c as u32) <= 90 {
            assert(ascii_lower(c) == ((c as u32) + 32) as char);
        }
    }
    assert(ascii_lowercase(ascii_lowercase(s)) =~= ascii_lowercase(s));
}

/// MIME detection ignores ASCII case: an extension and its lower-cased form give the same type,
/// and so do any two extensions that agree once lower-cased.
pub proof fn law_mime_ignores_case(a: Seq<char>, b: Seq<char>)
    ensures
        mime_for_extension(Some(a)) == mime_for_extension(Some(ascii_lowercase(a))),
        ascii_lowercase(a) == ascii_lowercase(b) ==> mime_for_extension(Some(a)) == mime_for_extension(Some(b)),
{
    law_ascii_lowercase_idempotent(a);
}

/// Every detected MIME type is an image type.
pub proof fn law_mime_is_image(ext: Option<Seq<char>>)
    ensures
        mime_for_extension(ext) matches Some(m) ==> m.subrange(0, 6) == seq!['i', 'm', 'a', 'g', 'e', '/'],
{
    if let Some(m) = mime_for_extension(ext) {
        assert(m.subrange(0, 6) =~= seq!['i', 'm', 'a', 'g', 'e', '/']);
    }
}

/// The image data of a successful `view_image` result decodes, as standard padded
/// base64, back to the file's bytes, and the result holds that one image block.
pub proof fn law_image_data_decodes_to_file(bytes: Seq<u8>, mime_type: Seq<char>)
    ensures
        image_result_view(base64_encode(bytes), mime_type).content.len() == 1,
        image_result_view(base64_encode(bytes), mime_type).content[0] matches ContentView::Image {
            data,
            ..
        } && base64_decode(data) == bytes,
{
    lemma_base64_round_trip(bytes);
}

/// No `view_image` result carries structured content: not an image, not an
/// unsupported extension, not a failed read.
pub proof fn law_image_results_unstructured(
    bytes: Seq<u8>,
    mime_type: Seq<char>,
    path: Seq<char>,
    message: Seq<char>,
)
    ensures
        image_result_view(base64_encode(bytes), mime_type).structured_content is None,
        text_result_view(unsupported_prefix() + path, true).structured_content is None,
        text_result_view(read_failure_prefix() + message, true).structured_content is None,
{
}

/// The delegated run always ends with the prompt, and has `-C <cwd>` exactly when a
/// directory was given.
pub proof fn law_subagent_args_shape(prompt: Seq<char>, cwd: Option<Seq<char>>, out_file: Seq<char>)
    ensures
        subagent_args(prompt, cwd, out_file).last() == prompt,
        subagent_args(prompt, cwd, out_file).len() == if cwd is Some { 8int } else { 6int },
        cwd matches Some(c) ==> subagent_args(prompt, cwd, out_file)[5] == seq!['-', 'C']
            && subagent_args(prompt, cwd, out_file)[6] == c,
        subagent_args(prompt, cwd, out_file)[0] == seq!['e', 'x', 'e', 'c'],
        subagent_args(prompt, cwd, out_file)[1] == seq!['-', '-', 'e', 'p', 'h', 'e', 'm', 'e', 'r', 'a', 'l'],
        subagent_args(prompt, cwd, out_file)[3] == seq![
            '-', '-', 'o', 'u', 't', 'p', 'u', 't', '-', 'l', 'a', 's', 't', '-', 'm', 'e', 's', 's',
            'a', 'g', 'e',
        ],
        subagent_args(prompt, cwd, out_file)[4] == out_file,
{
}

proof fn lemma_decimal_len(n: nat)
    ensures
        decimal(n).len() >= 1,
        n >= 10 ==> decimal(n).len() >= 2,
    decreases n,
{
    if n >= 10 {
        lemma_decimal_len(n / 10);
    }
}

proof fn lemma_digit_injective(a: int, b: int)
    requires
        0 <= a < 10,
        0 <= b < 10,
        digit_char(a) == digit_char(b),
    ensures
        a == b,
{
}

/// Different natural numbers have different decimal renderings.
pub proof fn law_decimal_injective(a: nat, b: nat)
    requires
        decimal(a) == decimal(b),
    ensures
        a == b,
    decreases a,
{
    lemma_decimal_len(a);
    lemma_decimal_len(b);
    if a < 10 && b < 10 {
        assert(decimal(a) == seq![digit_char(a as int)]);
        assert(decimal(b) == seq![digit_char(b as int)]);
        assert(decimal(a)[0] == decimal(b)[0]);
        assert(seq![digit_char(a as int)][0] == digit_char(a as int));
        assert(seq![digit_char(b as int)][0] == digit_char(b as int));
        lemma_digit_injective(a as int, b as int);
    } else if a >= 10 && b >= 10 {
        let da = decimal(a);
        let db = decimal(b);
        assert(da.last() == digit_char((a % 10) as int));
        assert(db.last() == digit_char((b % 10) as int));
        lemma_digit_injective((a % 10) as int, (b % 10) as int);
        assert(da.drop_last() =~= decimal(a / 10));
        assert(db.drop_last() =~= decimal(b / 10));
        law_decimal_injective(a / 10, b / 10);
    } else {
        assert(decimal(a).len() != decimal(b).len());
    }
}

/// Different integers have different renderings, so distinct exit codes are reported
/// with distinct texts.
pub proof fn law_int_decimal_injective(a: int, b: int)
    requires
        int_decimal(a) == int_decimal(b),
    ensures
        a == b,
{
    lemma_decimal_len(if a < 0 { (-a) as nat } else { a as nat });
    lemma_decimal_len(if b < 0 { (-b) as nat } else { b as nat });
    if a < 0 && b < 0 {
        assert(int_decimal(a).drop_first() =~= decimal((-a) as nat));
        assert(int_decimal(b).drop_first() =~= decimal((-b) as nat));
        law_decimal_injective((-a) as nat, (-b) as nat);
    } else if a >= 0 && b >= 0 {
        law_decimal_injective(a as nat, b as nat);
    } else if a < 0 {
        assert(int_decimal(a)[0] == '-');
        assert(int_decimal(b)[0] == decimal(b as nat)[0]);
        lemma_first_digit_not_minus(b as nat);
    } else {
        assert(int_decimal(b)[0] == '-');
        assert(int_decimal(a)[0] == decimal(a as nat)[0]);
        lemma_first_digit_not_minus(a as nat);
    }
}

proof fn lemma_first_digit_not_minus(n: nat)
    ensures
        decimal(n)[0] != '-',
    decreases n,
{
    lemma_decimal_len(n);
    if n >= 10 {
        lemma_decimal_len(n / 10);
        lemma_first_digit_not_minus(n / 10);
        assert(decimal(n)[0] == decimal(n / 10)[0]);
    }
}

/// `e` equals the lower-case ASCII word `word` up to ASCII case: character by character,
/// either the same character or the upper-case letter of the word's lower-case letter.
pub open spec fn same_ignoring_ascii_case(e: Seq<char>, word: Seq<char>) -> bool {
    &&& e.len() == word.len()
    &&& forall|i: int|
        0 <= i < e.len() ==> #[trigger] e[i] == word[i] || (97 <= (word[i] as u32) <= 122
            && (e[i] as u32) + 32 == (word[i] as u32))
}

/// `word` is made of lower-case ASCII letters only.
pub open spec fn lower_ascii_word(word: Seq<char>) -> bool {
    forall|i: int| 0 <= i < word.len() ==> 97 <= (#[trigger] word[i] as u32) <= 122
}

proof fn lemma_lowercase_is_word(e: Seq<char>, word: Seq<char>)
    requires
        lower_ascii_word(word),
    ensures
        (ascii_lowercase(e) == word) <==> same_ignoring_ascii_case(e, word),
{
    if same_ignoring_ascii_case(e, word) {
        assert forall|i: int| 0 <= i < e.len() implies #[trigger] ascii_lowercase(e)[i] == word[i] by {
            let c = e[i];
            assert(97 <= (word[i] as u32) <= 122);
            if c != word[i] {
                assert(65 <= (c as u32) <= 90);
                let u: u32 = word[i] as u32;
                vstd::utf8::char_u32_cast(word[i], u);
                assert(((c as u32) + 32) == u);
                assert(ascii_lower(c) == u as char);
            } else {
                assert(ascii_lower(c) == c);
            }
            assert(ascii_lowercase(e)[i] == ascii_lower(e[i]));
        }
        assert(ascii_lowercase(e) =~= word);
    }
    if ascii_lowercase(e) == word {
        assert forall|i: int| 0 <= i < e.len() implies #[trigger] e[i] == word[i] || (97 <= (word[i] as u32)
            <= 122 && (e[i] as u32) + 32 == (word[i] as u32)) by {
            assert(ascii_lowercase(e)[i] == word[i]);
            assert(97 <= (word[i] as u32) <= 122);
            let c = e[i];
            if 65 <= (c as u32) <= 90 {
                assert(ascii_lower(c) == ((c as u32) + 32) as char);
            }
        }
    }
}

/// MIME detection reads the whole extension, whatever its length, and ignores ASCII
/// case in every character: an extension is an image of a type exactly when it spells
/// that type's extension (png; jpg or jpeg; gif; webp) in any mix of cases.
pub proof fn law_mime_by_extension_any_case(e: Seq<char>)
    ensures
        (mime_for_extension(Some(e)) == Some(image_png())) <==> same_ignoring_ascii_case(
            e,
            seq!['p', 'n', 'g'],
        ),
        (mime_for_extension(Some(e)) == Some(image_jpeg())) <==> (same_ignoring_ascii_case(
            e,
            seq!['j', 'p', 'g'],
        ) || same_ignoring_ascii_case(e, seq!['j', 'p', 'e', 'g'])),
        (mime_for_extension(Some(e)) == Some(image_gif())) <==> same_ignoring_ascii_case(
            e,
            seq!['g', 'i', 'f'],
        ),
        (mime_for_extension(Some(e)) == Some(image_webp())) <==> same_ignoring_ascii_case(
            e,
            seq!['w', 'e', 'b', 'p'],
        ),
        mime_for_extension(None) is None,
{
    let png = seq!['p', 'n', 'g'];
    let jpg = seq!['j', 'p', 'g'];
    let jpeg = seq!['j', 'p', 'e', 'g'];
    let gif = seq!['g', 'i', 'f'];
    let webp = seq!['w', 'e', 'b', 'p'];
    assert(lower_ascii_word(png));
    assert(lower_ascii_word(jpg));
    assert(lower_ascii_word(jpeg));
    assert(lower_ascii_word(gif));
    assert(lower_ascii_word(webp));
    lemma_lowercase_is_word(e, png);
    lemma_lowercase_is_word(e, jpg);
    lemma_lowercase_is_word(e, jpeg);
    lemma_lowercase_is_word(e, gif);
    lemma_lowercase_is_word(e, webp);
    assert(image_png() != image_jpeg());
    assert(image_png() != image_gif());
    assert(image_png() != image_webp());
    assert(image_jpeg() != image_gif());
    assert(image_jpeg() != image_webp());
    assert(image_gif() != image_webp());
}

/// A shell result's structured output reports the run exactly as the runner gave it:
/// a finished run's aggregated output, exit code and timeout flag unchanged; a runner
/// error's message, exit code -1 and the runner's timeout flag.
pub proof fn law_shell_structured_reports_run(outcome: ExecOutcome)
    ensures
        match outcome {
            ExecOutcome::Finished { aggregated_output, exit_code, timed_out } => shell_result_view(
                outcome,
            ).structured_content matches Some(StructuredView::Shell(o)) && o.output
                == aggregated_output@ && o.exit_code == exit_code && o.timed_out == timed_out,
            ExecOutcome::Failed { message, timed_out } => shell_result_view(
                outcome,
            ).structured_content matches Some(StructuredView::Shell(o)) && o.output == message@
                && o.exit_code == -1 && o.timed_out == timed_out,
        },
{
}

/// The text of a finished run is the output (after the timeout notice when it timed
/// out), followed, for every nonzero exit code and only then, by the exit-code notice
/// `\n(exit code N)`.
pub proof fn law_shell_text_reports_exit_code(output: Seq<char>, exit_code: i32, timed_out: bool)
    ensures
        ({
            let text = shell_text(output, exit_code, timed_out);
            let head = if timed_out { timed_out_prefix() + output } else { output };
            let notice = exit_code_opening() + int_decimal(exit_code as int) + seq![')'];
            &&& text.len() >= head.len()
            &&& text.subrange(0, head.len() as int) == head
            &&& exit_code != 0 ==> text.len() == head.len() + notice.len() && text.subrange(
                head.len() as int,
                text.len() as int,
            ) == notice
            &&& exit_code == 0 ==> text.len() == head.len()
        }),
{
    let text = shell_text(output, exit_code, timed_out);
    let head = if timed_out { timed_out_prefix() + output } else { output };
    let notice = exit_code_opening() + int_decimal(exit_code as int) + seq![')'];
    assert(text.subrange(0, head.len() as int) =~= head);
    if exit_code != 0 {
        assert(text.subrange(head.len() as int, text.len() as int) =~= notice);
    }
}

/// The shell request runs the whole command text, line breaks and all, as the script
/// of `bash -lc`: exactly three arguments, `bash`, `-lc` and the command unchanged.
pub proof fn law_bash_runs_whole_command(command: Seq<char>)
    ensures
        bash_argv(command).len() == 3,
        bash_argv(command)[0] == seq!['b', 'a', 's', 'h'],
        bash_argv(command)[1] == seq!['-', 'l', 'c'],
        bash_argv(command)[2] == command,
{
}

/// A successful delegated run reports the agent's last message whenever it wrote one,
/// whatever it contains; a failed run reports a failure text that opens with the exit
/// code notice and ends with the run's stderr; a run that could not start is an error.
pub proof fn law_subagent_reports_last_message(run: SubagentRun, last_message: Seq<char>)
    ensures
        match run {
            SubagentRun::Exited { success, code, stdout, stderr } => {
                &&& (success && last_message.len() > 0) ==> {
                    &&& subagent_result_view(run, last_message).structured_content matches Some(
                        StructuredView::Subagent(o),
                    ) && o.success && o.output == last_message
                    &&& subagent_result_view(run, last_message).content == seq![
                        ContentView::Text(last_message),
                    ]
                    &&& subagent_result_view(run, last_message).is_error == Some(false)
                }
                &&& !success ==> {
                    &&& subagent_result_view(run, last_message).structured_content matches Some(
                        StructuredView::Subagent(o),
                    ) && !o.success && o.output.len() >= failure_opening().len()
                        && o.output.subrange(0, failure_opening().len() as int) == failure_opening()
                    &&& subagent_result_view(run, last_message).is_error == Some(true)
                }
            },
            SubagentRun::LaunchFailed { .. } => subagent_result_view(
                run,
                last_message,
            ).is_error == Some(true),
        },
{
    if let SubagentRun::Exited { success, code, stdout, stderr } = run {
        if !success {
            let t = crate::subagent::failure_text(code, crate::text::utf8_lossy(stderr@));
            assert(t.subrange(0, failure_opening().len() as int) =~= failure_opening());
        }
    }
}

/// The failure text of a delegated run ends with the run's stderr unchanged, right
/// after the `):` line.
pub proof fn law_failure_text_ends_with_stderr(code: Option<i32>, stderr_text: Seq<char>)
    ensures
        ({
            let t = crate::subagent::failure_text(code, stderr_text);
            &&& t.len() >= stderr_text.len() + failure_closing().len()
            &&& t.subrange(t.len() - stderr_text.len(), t.len() as int) == stderr_text
            &&& t.subrange(
                t.len() - stderr_text.len() - failure_closing().len(),
                t.len() - stderr_text.len(),
            ) == failure_closing()
        }),
{
    let t = crate::subagent::failure_text(code, stderr_text);
    assert(t.subrange(t.len() - stderr_text.len(), t.len() as int) =~= stderr_text);
    assert(t.subrange(
        t.len() - stderr_text.len() - failure_closing().len(),
        t.len() - stderr_text.len(),
    ) =~= failure_closing());
}

/// The value of a string of decimal digits.
pub open spec fn digits_value(s: Seq<char>) -> int
    decreases s.len(),
{
    if s.len() == 0 {
        0
    } else {
        digits_value(s.drop_last()) * 10 + ((s.last() as u32) - 48)
    }
}

proof fn lemma_digit_char_value(d: int)
    requires
        0 <= d < 10,
    ensures
        digit_char(d) as u32 == 48 + d,
{
}

/// The decimal rendering of a number is made of ASCII digits, reads back as that
/// number, and has no leading zero unless the number is zero.
pub proof fn law_decimal_reads_back(n: nat)
    ensures
        forall|i: int| 0 <= i < decimal(n).len() ==> 48 <= (#[trigger] decimal(n)[i] as u32) <= 57,
        digits_value(decimal(n)) == n,
        n > 0 ==> decimal(n)[0] != '0',
    decreases n,
{
    if n < 10 {
        lemma_digit_char_value(n as int);
        let d = decimal(n);
        assert(d == seq![digit_char(n as int)]);
        assert(d.drop_last() =~= Seq::<char>::empty());
        assert(digits_value(Seq::<char>::empty()) == 0);
        assert(digits_value(d) == digits_value(d.drop_last()) * 10 + ((d.last() as u32) - 48));
    } else {
        law_decimal_reads_back(n / 10);
        lemma_digit_char_value((n % 10) as int);
        let d = decimal(n);
        assert(digits_value(d) == digits_value(d.drop_last()) * 10 + ((d.last() as u32) - 48));
        assert(d.drop_last() =~= decimal(n / 10));
        assert(d.last() == digit_char((n % 10) as int));
        assert(d[0] == decimal(n / 10)[0]);
        assert forall|i: int| 0 <= i < d.len() implies 48 <= (#[trigger] d[i] as u32) <= 57 by {
            if i < d.len() - 1 {
                assert(d[i] == decimal(n / 10)[i]);
            }
        }
    }
}

/// The joined patch output is exactly: stderr alone when stdout is empty, stdout
/// alone when stderr is empty, and otherwise stdout, one line break, then stderr.
pub proof fn law_combined_output_exact(out: Seq<char>, err: Seq<char>)
    ensures
        out.len() == 0 ==> combined_output(out, err) == err,
        err.len() == 0 ==> combined_output(out, err) == out,
        (out.len() > 0 && err.len() > 0) ==> {
            let c = combined_output(out, err);
            &&& c.len() == out.len() + 1 + err.len()
            &&& c.subrange(0, out.len() as int) == out
            &&& c[out.len() as int] == '\n'
            &&& c.subrange(out.len() + 1int, c.len() as int) == err
        },
{
    if out.len() > 0 && err.len() > 0 {
        let c = combined_output(out, err);
        assert(c.subrange(0, out.len() as int) =~= out);
        assert(c.subrange(out.len() + 1int, c.len() as int) =~= err);
    }
}

/// The rendering of an integer reads back as that integer: a `-` followed by the
/// digits of its magnitude when it is negative, its digits alone otherwise.
pub proof fn law_int_decimal_reads_back(i: int)
    ensures
        i < 0 ==> int_decimal(i).len() >= 2 && int_decimal(i)[0] == '-' && digits_value(
            int_decimal(i).drop_first(),
        ) == -i,
        i >= 0 ==> digits_value(int_decimal(i)) == i && int_decimal(i).len() >= 1
            && int_decimal(i)[0] != '-',
{
    if i < 0 {
        law_decimal_reads_back((-i) as nat);
        lemma_decimal_len((-i) as nat);
        assert(int_decimal(i).drop_first() =~= decimal((-i) as nat));
    } else {
        law_decimal_reads_back(i as nat);
        lemma_decimal_len(i as nat);
        lemma_first_digit_not_minus(i as nat);
    }
}

} // verus!
