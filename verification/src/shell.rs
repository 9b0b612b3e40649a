//! The `shell_command` tool: the process request it makes and the result it reports.

use vstd::prelude::*;
use crate::model::{
    ShellCommandOutput, ShellCommandParams, ShellOutputView, StructuredOutput, StructuredView,
    ToolResult, ToolResultView, structured_result, structured_result_view,
};
use crate::text::{append_i32, int_decimal};

verus! {

/// What the process runner is asked to execute.
#[derive(Debug, Clone)]
pub struct ShellExecRequest {
    /// Program and arguments: the script runs under `bash -lc`.
    pub argv: Vec<String>,
    /// Requested working directory; `None` means the server process cwd.
    pub workdir: Option<String>,
    /// Requested timeout; `None` leaves the runner's default (10000 ms) in place.
    pub timeout_ms: Option<u64>,
}

/// How a shell run ended, as the process runner reports it.
#[derive(Debug, Clone)]
pub enum ExecOutcome {
    /// The process ran (and possibly timed out).
    Finished { aggregated_output: String, exit_code: i32, timed_out: bool },
    /// The runner reported an error instead of a finished run; `message` is its
    /// error text, and `timed_out` says whether the error is the runner killing the
    /// command for exceeding its timeout.
    Failed { message: String, timed_out: bool },
}

pub open spec fn bash_argv(command: Seq<char>) -> Seq<Seq<char>> {
    seq![seq!['b', 'a', 's', 'h'], seq!['-', 'l', 'c'], command]
}

/// `command timed out` and a line break.
pub open spec fn timed_out_prefix() -> Seq<char> {
    seq!['c', 'o', 'm', 'm', 'a', 'n', 'd', ' ', 't', 'i', 'm', 'e', 'd', ' ', 'o', 'u', 't', '\n']
}

/// A line break and `(exit code `.
pub open spec fn exit_code_opening() -> Seq<char> {
    seq!['\n', '(', 'e', 'x', 'i', 't', ' ', 'c', 'o', 'd', 'e', ' ']
}

/// `exec error: `.
pub open spec fn exec_error_prefix() -> Seq<char> {
    seq!['e', 'x', 'e', 'c', ' ', 'e', 'r', 'r', 'o', 'r', ':', ' ']
}

/// `invalid workdir: `.
pub open spec fn invalid_workdir_prefix() -> Seq<char> {
    seq!['i', 'n', 'v', 'a', 'l', 'i', 'd', ' ', 'w', 'o', 'r', 'k', 'd', 'i', 'r', ':', ' ']
}

/// The text reported for a finished run: the output, preceded by a timeout notice
/// when the run timed out, and followed by the exit code when it is not zero.
pub open spec fn shell_text(output: Seq<char>, exit_code: i32, timed_out: bool) -> Seq<char> {
    let marked = if timed_out { timed_out_prefix() + output } else { output };
    if exit_code != 0 {
        marked + exit_code_opening() + int_decimal(exit_code as int) + seq![')']
    } else {
        marked
    }
}

/// The result reported for each way a shell run can end.
pub open spec fn shell_result_view(outcome: ExecOutcome) -> ToolResultView {
    match outcome {
        ExecOutcome::Finished { aggregated_output, exit_code, timed_out } => structured_result_view(
            StructuredView::Shell(
                ShellOutputView { output: aggregated_output@, exit_code, timed_out },
            ),
            shell_text(aggregated_output@, exit_code, timed_out),
            exit_code != 0 || timed_out,
        ),
        ExecOutcome::Failed { message, timed_out } => structured_result_view(
            StructuredView::Shell(ShellOutputView { output: message@, exit_code: -1i32, timed_out }),
            exec_error_prefix() + message@,
            true,
        ),
    }
}

/// The request that runs `params.command` under `bash -lc`, in the requested
/// directory and with the requested timeout.
pub fn shell_exec_request(params: ShellCommandParams) -> (req: ShellExecRequest)
    ensures
        req.argv@.map_values(|a: String| a@) == bash_argv(params.command@),
        req.workdir == params.workdir,
        req.timeout_ms == params.timeout_ms,
{
    proof {
        reveal_strlit("bash");
        reveal_strlit("-lc");
        assert("bash"@ =~= seq!['b', 'a', 's', 'h']);
        assert("-lc"@ =~= seq!['-', 'l', 'c']);
    }
    let mut argv: Vec<String> = Vec::new();
    argv.push(String::from_str("bash"));
    argv.push(String::from_str("-lc"));
    argv.push(params.command);
    let req = ShellExecRequest { argv, workdir: params.workdir, timeout_ms: params.timeout_ms };
    assert(req.argv@.map_values(|a: String| a@) =~= bash_argv(params.command@));
    req
}

/// The text of a finished run; see `shell_text`.
pub fn shell_report_text(output: &str, exit_code: i32, timed_out: bool) -> (text: String)
    ensures
        text@ == shell_text(output@, exit_code, timed_out),
{
    proof {
        reveal_strlit("command timed out\n");
        reveal_strlit("\n(exit code ");
        reveal_strlit(")");
        assert("command timed out\n"@ =~= timed_out_prefix());
        assert("\n(exit code "@ =~= exit_code_opening());
        assert(")"@ =~= seq![')']);
    }
    let mut text = String::new();
    if timed_out {
        text.append("command timed out\n");
    }
    text.append(output);
    let ghost marked = text@;
    assert(marked =~= if timed_out { timed_out_prefix() + output@ } else { output@ });
    if exit_code != 0 {
        text.append("\n(exit code ");
        append_i32(&mut text, exit_code);
        text.append(")");
        assert(text@ =~= marked + exit_code_opening() + int_decimal(exit_code as int) + seq![')']);
    }
    text
}

/// The result of a shell run. A finished run is an error when it exited with a
/// nonzero code or timed out; a run the runner could not start is always an error,
/// reported with exit code -1.
pub fn shell_result(outcome: ExecOutcome) -> (res: ToolResult)
    ensures
        res@ == shell_result_view(outcome),
{
    match outcome {
        ExecOutcome::Finished { aggregated_output, exit_code, timed_out } => {
            let text = shell_report_text(aggregated_output.as_str(), exit_code, timed_out);
            let is_error = exit_code != 0 || timed_out;
            let structured = ShellCommandOutput { output: aggregated_output, exit_code, timed_out };
            structured_result(StructuredOutput::Shell(structured), text, is_error)
        },
        ExecOutcome::Failed { message, timed_out } => {
            proof {
                reveal_strlit("exec error: ");
                assert("exec error: "@ =~= exec_error_prefix());
            }
            let mut text = String::from_str("exec error: ");
            text.append(message.as_str());
            let structured = ShellCommandOutput { output: message, exit_code: -1, timed_out };
            structured_result(StructuredOutput::Shell(structured), text, true)
        },
    }
}

/// The result reported when the requested working directory cannot be used;
/// `message` is the reason. Like every shell result it carries a structured output:
/// the reason, exit code -1 and no timeout.
pub open spec fn workdir_error_view(message: Seq<char>) -> ToolResultView {
    structured_result_view(
        StructuredView::Shell(ShellOutputView { output: message, exit_code: -1i32, timed_out: false }),
        invalid_workdir_prefix() + message,
        true,
    )
}

/// The result reported when the requested working directory cannot be used;
/// `message` is the reason.
pub fn workdir_error_result(message: &str) -> (res: ToolResult)
    ensures
        res@ == workdir_error_view(message@),
        res@.structured_content is Some,
{
    proof {
        reveal_strlit("invalid workdir: ");
        assert("invalid workdir: "@ =~= invalid_workdir_prefix());
    }
    let mut text = String::from_str("invalid workdir: ");
    text.append(message);
    let structured = ShellCommandOutput { output: String::from_str(message), exit_code: -1, timed_out: false };
    structured_result(StructuredOutput::Shell(structured), text, true)
}

} // verus!
