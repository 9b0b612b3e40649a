//! Tool parameters, tool outputs, and the result of a tool call.

use vstd::prelude::*;

verus! {

/// Parameters of the `shell_command` tool.
#[derive(Debug, Clone)]
pub struct ShellCommandParams {
    /// Shell script to run in the user's default shell.
    pub command: String,
    /// Working directory for the command. Defaults to the server process cwd.
    pub workdir: Option<String>,
    /// Maximum command runtime. Defaults to 10000 ms.
    pub timeout_ms: Option<u64>,
}

/// Parameters of the `apply_patch` tool.
#[derive(Debug, Clone)]
pub struct ApplyPatchParams {
    /// The entire contents of the apply_patch command.
    pub input: String,
    /// Directory relative paths in the patch are resolved against. Defaults to
    /// the server process cwd.
    pub cwd: Option<String>,
}

/// Parameters of the `view_image` tool.
#[derive(Debug, Clone)]
pub struct ViewImageParams {
    /// Local filesystem path to an image file.
    pub path: String,
}

/// Parameters of the `subagent` tool.
#[derive(Debug, Clone)]
pub struct SubagentParams {
    /// Task instructions for the non-interactive agent.
    pub prompt: String,
    /// Working directory for the agent. Defaults to the server process cwd.
    pub cwd: Option<String>,
}

/// Structured output of `shell_command`.
#[derive(Debug, Clone)]
pub struct ShellCommandOutput {
    /// Combined stdout+stderr, possibly truncated.
    pub output: String,
    /// Process exit code.
    pub exit_code: i32,
    /// True if the command was killed for exceeding `timeout_ms`.
    pub timed_out: bool,
}

/// Structured output of `apply_patch`.
#[derive(Debug, Clone)]
pub struct ApplyPatchOutput {
    /// True if every hunk in the patch applied successfully.
    pub success: bool,
    /// Combined stdout+stderr from the patch applier.
    pub output: String,
}

/// Structured output of `subagent`.
#[derive(Debug, Clone)]
pub struct SubagentOutput {
    /// True if the delegated run exited successfully.
    pub success: bool,
    /// The subagent's final message (or raw stdout/stderr on failure).
    pub output: String,
}

/// One block of content in a tool result.
#[derive(Debug, Clone)]
pub enum ContentBlock {
    /// Human-readable text.
    Text(String),
    /// A base64-encoded image with its MIME type.
    Image { data: String, mime_type: String },
}

/// The structured part of a tool result, one variant per tool that declares an output schema.
#[derive(Debug, Clone)]
pub enum StructuredOutput {
    Shell(ShellCommandOutput),
    ApplyPatch(ApplyPatchOutput),
    Subagent(SubagentOutput),
}

/// The result of one tool call: content blocks, optional structured content, and the error flag.
#[derive(Debug, Clone)]
pub struct ToolResult {
    pub content: Vec<ContentBlock>,
    pub structured_content: Option<StructuredOutput>,
    pub is_error: Option<bool>,
}

/// The server itself; it holds no state.
#[derive(Debug, Clone, Copy)]
pub struct CxTools;

/// Shell output as values.
pub struct ShellOutputView {
    pub output: Seq<char>,
    pub exit_code: i32,
    pub timed_out: bool,
}

/// Success flag and text, the shape of the patch and subagent outputs.
pub struct FlaggedTextView {
    pub success: bool,
    pub output: Seq<char>,
}

pub enum ContentView {
    Text(Seq<char>),
    Image { data: Seq<char>, mime_type: Seq<char> },
}

pub enum StructuredView {
    Shell(ShellOutputView),
    ApplyPatch(FlaggedTextView),
    Subagent(FlaggedTextView),
}

pub struct ToolResultView {
    pub content: Seq<ContentView>,
    pub structured_content: Option<StructuredView>,
    pub is_error: Option<bool>,
}

impl View for ShellCommandOutput {
    type V = ShellOutputView;

    open spec fn view(&self) -> ShellOutputView {
        ShellOutputView { output: self.output@, exit_code: self.exit_code, timed_out: self.timed_out }
    }
}

impl View for ApplyPatchOutput {
    type V = FlaggedTextView;

    open spec fn view(&self) -> FlaggedTextView {
        FlaggedTextView { success: self.success, output: self.output@ }
    }
}

impl View for SubagentOutput {
    type V = FlaggedTextView;

    open spec fn view(&self) -> FlaggedTextView {
        FlaggedTextView { success: self.success, output: self.output@ }
    }
}

impl View for ContentBlock {
    type V = ContentView;

    open spec fn view(&self) -> ContentView {
        match self {
            ContentBlock::Text(t) => ContentView::Text(t@),
            ContentBlock::Image { data, mime_type } => ContentView::Image {
                data: data@,
                mime_type: mime_type@,
            },
        }
    }
}

impl View for StructuredOutput {
    type V = StructuredView;

    open spec fn view(&self) -> StructuredView {
        match self {
            StructuredOutput::Shell(o) => StructuredView::Shell(o@),
            StructuredOutput::ApplyPatch(o) => StructuredView::ApplyPatch(o@),
            StructuredOutput::Subagent(o) => StructuredView::Subagent(o@),
        }
    }
}

impl View for ToolResult {
    type V = ToolResultView;

    open spec fn view(&self) -> ToolResultView {
        ToolResultView {
            content: self.content@.map_values(|c: ContentBlock| c@),
            structured_content: match self.structured_content {
                Some(s) => Some(s@),
                None => None,
            },
            is_error: self.is_error,
        }
    }
}

/// An optional string taken by its view.
pub open spec fn opt_text(o: Option<String>) -> Option<Seq<char>> {
    match o {
        Some(s) => Some(s@),
        None => None,
    }
}

/// A result holding one text block and no structured content.
pub open spec fn text_result_view(text: Seq<char>, is_error: bool) -> ToolResultView {
    ToolResultView {
        content: seq![ContentView::Text(text)],
        structured_content: None,
        is_error: Some(is_error),
    }
}

/// A result holding one text block for older clients and the structured output.
pub open spec fn structured_result_view(
    output: StructuredView,
    text: Seq<char>,
    is_error: bool,
) -> ToolResultView {
    ToolResultView {
        content: seq![ContentView::Text(text)],
        structured_content: Some(output),
        is_error: Some(is_error),
    }
}

/// A result reporting text, flagged as an error or not.
pub fn text_result(text: String, is_error: bool) -> (res: ToolResult)
    ensures
        res@ == text_result_view(text@, is_error),
{
    let mut content: Vec<ContentBlock> = Vec::new();
    content.push(ContentBlock::Text(text));
    let res = ToolResult { content, structured_content: None, is_error: Some(is_error) };
    assert(res@.content =~= seq![ContentView::Text(text@)]);
    res
}

/// A result carrying both the human-readable text and the structured output
/// that matches the tool's output schema.
pub fn structured_result(output: StructuredOutput, text: String, is_error: bool) -> (res: ToolResult)
    ensures
        res@ == structured_result_view(output@, text@, is_error),
{
    let mut content: Vec<ContentBlock> = Vec::new();
    content.push(ContentBlock::Text(text));
    let res = ToolResult { content, structured_content: Some(output), is_error: Some(is_error) };
    assert(res@.content =~= seq![ContentView::Text(text@)]);
    res
}

impl CxTools {
    /// Creates the server.
    pub fn new() -> (res: Self)
        ensures
            res == CxTools,
    {
        CxTools
    }
}

impl Default for CxTools {
    fn default() -> (res: Self)
        ensures
            res == CxTools,
    {
        CxTools::new()
    }
}

} // verus!
