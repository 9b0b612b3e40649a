//! Tool logic for an MCP server exposing shell, patch, image and delegation tools.
//!
//! The library holds what the tools decide and compute: the requests handed to the
//! process runners, and the results reported back for every outcome. The runners
//! themselves (processes, files, the MCP transport) live outside.

pub mod text;
pub mod model;
pub mod shell;
pub mod patch;
pub mod encoding;
pub mod image;
pub mod subagent;
pub mod server;
pub mod laws;
