//! What the server says about itself when a client connects.

use vstd::prelude::*;
use crate::model::CxTools;

verus! {

/// The server's self-description: its name and version, whether it offers tools,
/// and the instructions shown to clients.
#[derive(Debug, Clone)]
pub struct ServerDescription {
    pub name: String,
    pub version: String,
    pub tools_enabled: bool,
    pub instructions: Option<String>,
}

pub open spec fn server_name() -> Seq<char> {
    "cxtools"@
}

pub open spec fn server_instructions() -> Seq<char> {
    "Codex tools served over MCP: shell_command and apply_patch run the actual codex-rs implementations in-process; subagent delegates to `codex exec`."@
}

impl CxTools {
    /// The server's description for a build of the given `version`: named `cxtools`,
    /// offering tools, with instructions naming the tools.
    pub fn server_info(&self, version: &str) -> (info: ServerDescription)
        ensures
            info.name@ == server_name(),
            info.version@ == version@,
            info.tools_enabled,
            info.instructions matches Some(text) && text@ == server_instructions(),
    {
        ServerDescription {
            name: String::from_str("cxtools"),
            version: String::from_str(version),
            tools_enabled: true,
            instructions: Some(String::from_str(
                "Codex tools served over MCP: shell_command and apply_patch run the actual codex-rs implementations in-process; subagent delegates to `codex exec`.",
            )),
        }
    }
}

} // verus!
