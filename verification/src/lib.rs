//! A verified core for a JSON-RPC capability server: registries of tools,
//! resources and prompts, and the dispatcher that routes protocol methods
//! to them.  Network transports sit outside the library and hand it plain
//! values.

use vstd::prelude::*;

pub mod json;
pub mod server;
pub mod settings;

pub use server::Context;
pub use server::RustMCP;
pub use server::prompts::DuplicateBehavior as PromptDuplicateBehavior;
pub use server::prompts::FunctionPrompt;
pub use server::prompts::Prompt;
pub use server::prompts::PromptMessage;
pub use server::resources::DuplicateBehavior as ResourceDuplicateBehavior;
pub use server::resources::FunctionResource;
pub use server::resources::Resource;
pub use server::tools::DuplicateBehavior as ToolDuplicateBehavior;
pub use server::tools::FunctionTool;
pub use server::tools::ToolAnnotations;

verus! {

/// Major component of the library version.
pub const MAJOR_VERSION: u32 = 0;

/// Minor component of the library version.
pub const MINOR_VERSION: u32 = 1;

/// Patch component of the library version.
pub const PATCH_VERSION: u32 = 0;

/// Returns the library version as a dotted string.
pub fn version() -> (v: String)
    ensures
        v@ == "0.1.0"@,
{
    String::from_str("0.1.0")
}

} // verus!
