//! The `subagent` tool: the delegated run it requests and the result it reports.

use vstd::prelude::*;
use crate::model::{
    FlaggedTextView, StructuredOutput, StructuredView, SubagentOutput, SubagentParams, ToolResult,
    ToolResultView, opt_text, structured_result, structured_result_view,
};
use vstd::utf8::{decode_utf8, valid_utf8};
use crate::text::{append_decimal, append_i32, decimal, decode_utf8_lossy, option_int_debug, utf8_lossy};

verus! {

/// The delegated run: the program and its arguments.
#[derive(Debug, Clone)]
pub struct SubagentRequest {
    pub program: String,
    pub args: Vec<String>,
}

/// How a delegated run ended, as the process runner reports it.
#[derive(Debug, Clone)]
pub enum SubagentRun {
    /// The process ran; `code` is its exit code, if it exited with one.
    Exited { success: bool, code: Option<i32>, stdout: Vec<u8>, stderr: Vec<u8> },
    /// The process could not be started; `message` is the reason.
    LaunchFailed { message: String },
}

pub open spec fn codex_program() -> Seq<char> {
    seq!['c', 'o', 'd', 'e', 'x']
}

/// `cxtools-last-message-`.
pub open spec fn last_message_stem() -> Seq<char> {
    seq![
        'c', 'x', 't', 'o', 'o', 'l', 's', '-', 'l', 'a', 's', 't', '-', 'm', 'e', 's', 's', 'a',
        'g', 'e', '-',
    ]
}

pub open spec fn txt_suffix() -> Seq<char> {
    seq!['.', 't', 'x', 't']
}

/// The name of the file the agent writes its last message to.
pub open spec fn last_message_file(tag: u64) -> Seq<char> {
    last_message_stem() + decimal(tag as nat) + txt_suffix()
}

/// The fixed leading arguments: a non-interactive, ephemeral run outside any git
/// repository check, with the last message written to `out_file`.
pub open spec fn leading_args(out_file: Seq<char>) -> Seq<Seq<char>> {
    seq![
        seq!['e', 'x', 'e', 'c'],
        seq!['-', '-', 'e', 'p', 'h', 'e', 'm', 'e', 'r', 'a', 'l'],
        seq![
            '-', '-', 's', 'k', 'i', 'p', '-', 'g', 'i', 't', '-', 'r', 'e', 'p', 'o', '-', 'c',
            'h', 'e', 'c', 'k',
        ],
        seq![
            '-', '-', 'o', 'u', 't', 'p', 'u', 't', '-', 'l', 'a', 's', 't', '-', 'm', 'e', 's',
            's', 'a', 'g', 'e',
        ],
        out_file,
    ]
}

/// All arguments: the leading ones, `-C <cwd>` when a directory is given, then the prompt.
pub open spec fn subagent_args(prompt: Seq<char>, cwd: Option<Seq<char>>, out_file: Seq<char>) -> Seq<Seq<char>> {
    leading_args(out_file) + match cwd {
        Some(c) => seq![seq!['-', 'C'], c],
        None => Seq::<Seq<char>>::empty(),
    } + seq![prompt]
}

/// `codex exec failed (exit code `.
pub open spec fn failure_opening() -> Seq<char> {
    seq![
        'c', 'o', 'd', 'e', 'x', ' ', 'e', 'x', 'e', 'c', ' ', 'f', 'a', 'i', 'l', 'e', 'd', ' ',
        '(', 'e', 'x', 'i', 't', ' ', 'c', 'o', 'd', 'e', ' ',
    ]
}

/// `):` and a line break.
pub open spec fn failure_closing() -> Seq<char> {
    seq![')', ':', '\n']
}

/// `failed to launch codex: `.
pub open spec fn launch_failure_prefix() -> Seq<char> {
    seq![
        'f', 'a', 'i', 'l', 'e', 'd', ' ', 't', 'o', ' ', 'l', 'a', 'u', 'n', 'c', 'h', ' ', 'c',
        'o', 'd', 'e', 'x', ':', ' ',
    ]
}

/// The text of a failed run: its exit code (as `Debug` prints an `Option<i32>`) and its stderr.
pub open spec fn failure_text(code: Option<i32>, stderr_text: Seq<char>) -> Seq<char> {
    failure_opening() + option_int_debug(code) + failure_closing() + stderr_text
}

/// A result whose text and structured output are both `text`.
pub open spec fn subagent_view(success: bool, text: Seq<char>) -> ToolResultView {
    structured_result_view(
        StructuredView::Subagent(FlaggedTextView { success, output: text }),
        text,
        !success,
    )
}

/// The result for each way a delegated run can end; `last_message` is what the agent
/// wrote to its last-message file (empty when it wrote nothing).
pub open spec fn subagent_result_view(run: SubagentRun, last_message: Seq<char>) -> ToolResultView {
    match run {
        SubagentRun::Exited { success, code, stdout, stderr } => if success {
            subagent_view(true, if last_message.len() == 0 { utf8_lossy(stdout@) } else { last_message })
        } else {
            subagent_view(false, failure_text(code, utf8_lossy(stderr@)))
        },
        SubagentRun::LaunchFailed { message } => subagent_view(false, launch_failure_prefix() + message@),
    }
}

/// The tag that makes the last-message file name unique: the process id mixed with
/// the low 64 bits of the nanoseconds since the epoch.
pub fn last_message_tag(pid: u32, nanos: u128) -> (tag: u64)
    ensures
        tag == (pid as u64) ^ (nanos as u64),
{
    (pid as u64) ^ (nanos as u64)
}

/// The name of the last-message file for `tag`.
pub fn last_message_file_name(tag: u64) -> (name: String)
    ensures
        name@ == last_message_file(tag),
{
    proof {
        reveal_strlit("cxtools-last-message-");
        reveal_strlit(".txt");
        assert("cxtools-last-message-"@ =~= last_message_stem());
        assert(".txt"@ =~= txt_suffix());
    }
    let mut name = String::from_str("cxtools-last-message-");
    append_decimal(&mut name, tag);
    name.append(".txt");
    assert(name@ =~= last_message_file(tag));
    name
}

/// The delegated run for `params`, writing its last message to `out_file`.
pub fn subagent_request(params: &SubagentParams, out_file: &str) -> (req: SubagentRequest)
    ensures
        req.program@ == codex_program(),
        req.args@.map_values(|a: String| a@) == subagent_args(
            params.prompt@,
            opt_text(params.cwd),
            out_file@,
        ),
{
    proof {
        reveal_strlit("codex");
        reveal_strlit("exec");
        reveal_strlit("--ephemeral");
        reveal_strlit("--skip-git-repo-check");
        reveal_strlit("--output-last-message");
        reveal_strlit("-C");
        assert("codex"@ =~= codex_program());
        assert("exec"@ =~= seq!['e', 'x', 'e', 'c']);
        assert("--ephemeral"@ =~= seq!['-', '-', 'e', 'p', 'h', 'e', 'm', 'e', 'r', 'a', 'l']);
        assert("--skip-git-repo-check"@ =~= seq![
            '-', '-', 's', 'k', 'i', 'p', '-', 'g', 'i', 't', '-', 'r', 'e', 'p', 'o', '-', 'c',
            'h', 'e', 'c', 'k',
        ]);
        assert("--output-last-message"@ =~= seq![
            '-', '-', 'o', 'u', 't', 'p', 'u', 't', '-', 'l', 'a', 's', 't', '-', 'm', 'e', 's',
            's', 'a', 'g', 'e',
        ]);
        assert("-C"@ =~= seq!['-', 'C']);
    }
    let mut args: Vec<String> = Vec::new();
    args.push(String::from_str("exec"));
    args.push(String::from_str("--ephemeral"));
    args.push(String::from_str("--skip-git-repo-check"));
    args.push(String::from_str("--output-last-message"));
    args.push(String::from_str(out_file));
    let ghost cwd_view: Option<Seq<char>> = opt_text(params.cwd);
    match &params.cwd {
        Some(c) => {
            args.push(String::from_str("-C"));
            args.push(c.clone());
        },
        None => {},
    }
    args.push(params.prompt.clone());
    let req = SubagentRequest { program: String::from_str("codex"), args };
    assert(req.args@.map_values(|a: String| a@) =~= subagent_args(params.prompt@, cwd_view, out_file@));
    req
}

/// The result of a successful run reporting `text`.
pub fn subagent_success_result(text: String) -> (res: ToolResult)
    ensures
        res@ == subagent_view(true, text@),
{
    let structured = SubagentOutput { success: true, output: text.clone() };
    structured_result(StructuredOutput::Subagent(structured), text, false)
}

/// The result of a run that exited unsuccessfully with `code`, given its stderr as text.
pub fn subagent_failure_result(code: Option<i32>, stderr_text: &str) -> (res: ToolResult)
    ensures
        res@ == subagent_view(false, failure_text(code, stderr_text@)),
{
    proof {
        reveal_strlit("codex exec failed (exit code ");
        reveal_strlit("Some(");
        reveal_strlit(")");
        reveal_strlit("None");
        reveal_strlit("):\n");
        assert("codex exec failed (exit code "@ =~= failure_opening());
        assert("Some("@ =~= seq!['S', 'o', 'm', 'e', '(']);
        assert(")"@ =~= seq![')']);
        assert("None"@ =~= seq!['N', 'o', 'n', 'e']);
        assert("):\n"@ =~= failure_closing());
    }
    let mut text = String::from_str("codex exec failed (exit code ");
    match code {
        Some(n) => {
            text.append("Some(");
            append_i32(&mut text, n);
            text.append(")");
        },
        None => {
            text.append("None");
        },
    }
    text.append("):\n");
    text.append(stderr_text);
    assert(text@ =~= failure_text(code, stderr_text@));
    let structured = SubagentOutput { success: false, output: text.clone() };
    structured_result(StructuredOutput::Subagent(structured), text, true)
}

/// The result of a run that could not be started.
pub fn subagent_launch_failure_result(message: &str) -> (res: ToolResult)
    ensures
        res@ == subagent_view(false, launch_failure_prefix() + message@),
{
    proof {
        reveal_strlit("failed to launch codex: ");
        assert("failed to launch codex: "@ =~= launch_failure_prefix());
    }
    let mut text = String::from_str("failed to launch codex: ");
    text.append(message);
    let structured = SubagentOutput { success: false, output: text.clone() };
    structured_result(StructuredOutput::Subagent(structured), text, true)
}

/// The result of a delegated run: a successful run reports the agent's last message,
/// or its stdout when the last message is empty; a failed run reports its exit code
/// and stderr; a run that could not start reports why.
pub fn subagent_result(run: SubagentRun, last_message: String) -> (res: ToolResult)
    ensures
        res@ == subagent_result_view(run, last_message@),
        match run {
            SubagentRun::Exited { success, code, stdout, stderr } => {
                &&& (success && last_message@.len() == 0 && valid_utf8(stdout@)) ==> res@
                    == subagent_view(true, decode_utf8(stdout@))
                &&& (!success && valid_utf8(stderr@)) ==> res@ == subagent_view(
                    false,
                    failure_text(code, decode_utf8(stderr@)),
                )
            },
            SubagentRun::LaunchFailed { .. } => true,
        },
{
    match run {
        SubagentRun::Exited { success, code, stdout, stderr } => {
            if success {
                if last_message.as_str().is_empty() {
                    subagent_success_result(decode_utf8_lossy(stdout.as_slice()))
                } else {
                    subagent_success_result(last_message)
                }
            } else {
                let stderr_text = decode_utf8_lossy(stderr.as_slice());
                subagent_failure_result(code, stderr_text.as_str())
            }
        },
        SubagentRun::LaunchFailed { message } => subagent_launch_failure_result(message.as_str()),
    }
}

} // verus!
