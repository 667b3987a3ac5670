//! The server core: capability registries, the shared dispatcher, and the
//! aggregate that owns one registry of each kind.

use vstd::prelude::*;

pub mod prompts;
pub mod resources;
pub mod rpc;
pub mod tools;
pub mod ws;

use crate::json::JVal;
use crate::json::JsonValue;
use crate::json::args_deep;
use crate::json::outcome_deep;
use crate::server::prompts::FunctionPrompt;
use crate::server::prompts::Prompt;
use crate::server::prompts::PromptHandler;
use crate::server::prompts::PromptManager;
use crate::server::prompts::PromptMessage;
use crate::server::resources::FunctionResource;
use crate::server::resources::Resource;
use crate::server::resources::ResourceHandler;
use crate::server::resources::ResourceManager;
use crate::server::tools::FunctionTool;
use crate::server::tools::ToolHandler;
use crate::server::tools::ToolManager;

verus! {

/// Per-session context handed to capability handlers that want it.
pub struct Context {}

/// The aggregate server state: one registry of each capability kind,
/// shared by every transport.  `T`, `R` and `P` are the user's handler
/// types for tools, resources and prompts.
pub struct RustMCP<T, R, P> {
    tool_manager: ToolManager<T>,
    resource_manager: ResourceManager<R>,
    prompt_manager: PromptManager<P>,
}

impl<T: ToolHandler, R: ResourceHandler, P: PromptHandler> RustMCP<T, R, P> {
    /// The stored tools, in registration order.
    pub closed spec fn spec_tools(&self) -> Seq<FunctionTool<T>> {
        self.tool_manager.spec_tools()
    }

    /// The stored resources, in registration order.
    pub closed spec fn spec_resources(&self) -> Seq<FunctionResource<R>> {
        self.resource_manager.spec_resources()
    }

    /// The stored prompts, in registration order.
    pub closed spec fn spec_prompts(&self) -> Seq<FunctionPrompt<P>> {
        self.prompt_manager.spec_prompts()
    }

    /// The collision policy of the tool registry.
    pub closed spec fn tool_behavior(&self) -> tools::DuplicateBehavior {
        self.tool_manager.behavior()
    }

    /// The collision policy of the resource registry.
    pub closed spec fn resource_behavior(&self) -> resources::DuplicateBehavior {
        self.resource_manager.behavior()
    }

    /// The collision policy of the prompt registry.
    pub closed spec fn prompt_behavior(&self) -> prompts::DuplicateBehavior {
        self.prompt_manager.behavior()
    }

    /// All three registries hold unique keys.
    pub open spec fn wf(&self) -> bool {
        &&& tools::wf_tools(self.spec_tools())
        &&& resources::wf_resources(self.spec_resources())
        &&& prompts::wf_prompts(self.spec_prompts())
    }

    /// A server with three empty registries, each warning and replacing on
    /// collision.
    pub fn new() -> (s: Self)
        ensures
            s.spec_tools() == Seq::<FunctionTool<T>>::empty(),
            s.spec_resources() == Seq::<FunctionResource<R>>::empty(),
            s.spec_prompts() == Seq::<FunctionPrompt<P>>::empty(),
            s.tool_behavior() is Warn,
            s.resource_behavior() is Warn,
            s.prompt_behavior() is Warn,
            s.wf(),
    {
        RustMCP {
            tool_manager: ToolManager::new(),
            resource_manager: ResourceManager::new(),
            prompt_manager: PromptManager::new(),
        }
    }

    /// A server with three empty registries and the given collision
    /// policies.
    pub fn with_behavior(
        tool_behavior: tools::DuplicateBehavior,
        resource_behavior: resources::DuplicateBehavior,
        prompt_behavior: prompts::DuplicateBehavior,
    ) -> (s: Self)
        ensures
            s.spec_tools() == Seq::<FunctionTool<T>>::empty(),
            s.spec_resources() == Seq::<FunctionResource<R>>::empty(),
            s.spec_prompts() == Seq::<FunctionPrompt<P>>::empty(),
            s.tool_behavior() == tool_behavior,
            s.resource_behavior() == resource_behavior,
            s.prompt_behavior() == prompt_behavior,
            s.wf(),
    {
        RustMCP {
            tool_manager: ToolManager::with_behavior(tool_behavior),
            resource_manager: ResourceManager::with_behavior(resource_behavior),
            prompt_manager: PromptManager::with_behavior(prompt_behavior),
        }
    }

    /// Registers a tool; see `ToolManager::add_tool`.
    pub fn add_tool(&mut self, tool: FunctionTool<T>) -> (r: Result<(), String>)
        requires
            old(self).wf(),
        ensures
            final(self).wf(),
            final(self).tool_behavior() == old(self).tool_behavior(),
            final(self).resource_behavior() == old(self).resource_behavior(),
            final(self).prompt_behavior() == old(self).prompt_behavior(),
            final(self).spec_resources() == old(self).spec_resources(),
            final(self).spec_prompts() == old(self).spec_prompts(),
            ({
                let s = old(self).spec_tools();
                let key = tool.name@;
                if !tools::has_tool(s, key) {
                    r is Ok && final(self).spec_tools() == s.push(tool)
                } else {
                    match old(self).tool_behavior() {
                        tools::DuplicateBehavior::Warn => r is Ok && final(self).spec_tools()
                            == s.update(tools::tool_at(s, key), tool),
                        tools::DuplicateBehavior::Replace => r is Ok && final(self).spec_tools()
                            == s.update(tools::tool_at(s, key), tool),
                        tools::DuplicateBehavior::Ignore => r is Ok && final(self).spec_tools()
                            == s,
                        tools::DuplicateBehavior::Error => (r matches Err(m) && m@ == "Tool '"@
                            + key + "' already exists"@) && final(self).spec_tools() == s,
                    }
                }
            }),
    {
        self.tool_manager.add_tool(tool)
    }

    /// Registers a resource; see `ResourceManager::add_resource`.
    pub fn add_resource(&mut self, resource: FunctionResource<R>) -> (r: Result<(), String>)
        requires
            old(self).wf(),
        ensures
            final(self).wf(),
            final(self).tool_behavior() == old(self).tool_behavior(),
            final(self).resource_behavior() == old(self).resource_behavior(),
            final(self).prompt_behavior() == old(self).prompt_behavior(),
            final(self).spec_tools() == old(self).spec_tools(),
            final(self).spec_prompts() == old(self).spec_prompts(),
            ({
                let s = old(self).spec_resources();
                let key = resource.uri@;
                if !resources::has_resource(s, key) {
                    r is Ok && final(self).spec_resources() == s.push(resource)
                } else {
                    match old(self).resource_behavior() {
                        resources::DuplicateBehavior::Warn => r is Ok && final(self).spec_resources() == s.update(resources::resource_at(s, key), resource),
                        resources::DuplicateBehavior::Replace => r is Ok && final(self).spec_resources() == s.update(resources::resource_at(s, key), resource),
                        resources::DuplicateBehavior::Ignore => r is Ok && final(self).spec_resources() == s,
                        resources::DuplicateBehavior::Error => (r matches Err(m) && m@
                            == "Resource '"@ + key + "' already exists"@) && final(self).spec_resources() == s,
                    }
                }
            }),
    {
        self.resource_manager.add_resource(resource)
    }

    /// Registers a prompt; see `PromptManager::add_prompt`.
    pub fn add_prompt(&mut self, prompt: FunctionPrompt<P>) -> (r: Result<(), String>)
        requires
            old(self).wf(),
        ensures
            final(self).wf(),
            final(self).tool_behavior() == old(self).tool_behavior(),
            final(self).resource_behavior() == old(self).resource_behavior(),
            final(self).prompt_behavior() == old(self).prompt_behavior(),
            final(self).spec_tools() == old(self).spec_tools(),
            final(self).spec_resources() == old(self).spec_resources(),
            ({
                let s = old(self).spec_prompts();
                let key = prompt.name@;
                if !prompts::has_prompt(s, key) {
                    r is Ok && final(self).spec_prompts() == s.push(prompt)
                } else {
                    match old(self).prompt_behavior() {
                        prompts::DuplicateBehavior::Warn => r is Ok && final(self).spec_prompts()
                            == s.update(prompts::prompt_at(s, key), prompt),
                        prompts::DuplicateBehavior::Replace => r is Ok && final(self).spec_prompts() == s.update(prompts::prompt_at(s, key), prompt),
                        prompts::DuplicateBehavior::Ignore => r is Ok && final(self).spec_prompts()
                            == s,
                        prompts::DuplicateBehavior::Error => (r matches Err(m) && m@ == "Prompt '"@
                            + key + "' already exists"@) && final(self).spec_prompts() == s,
                    }
                }
            }),
    {
        self.prompt_manager.add_prompt(prompt)
    }

    /// All stored tools, in registration order.
    pub fn mcp_list_tools(&self) -> (r: Vec<&FunctionTool<T>>)
        ensures
            r@.len() == self.spec_tools().len(),
            forall|i: int| 0 <= i < r@.len() ==> r@[i] == self.spec_tools()[i],
    {
        self.tool_manager.list_tools()
    }

    /// The metadata projections of all stored resources.
    pub fn mcp_list_resources(&self) -> (r: Vec<Resource>)
        ensures
            r@.len() == self.spec_resources().len(),
            forall|i: int|
                0 <= i < r@.len() ==> resources::resource_view_of(
                    r@[i],
                    self.spec_resources()[i],
                ),
    {
        self.resource_manager.list_resources()
    }

    /// The metadata projections of all stored prompts.
    pub fn mcp_list_prompts(&self) -> (r: Vec<Prompt>)
        ensures
            r@.len() == self.spec_prompts().len(),
            forall|i: int|
                0 <= i < r@.len() ==> prompts::prompt_view_of(r@[i], self.spec_prompts()[i]),
    {
        self.prompt_manager.list_prompts()
    }

    /// Invokes the tool named `name`; see `ToolManager::call_tool`.
    pub fn mcp_call_tool(&self, name: &str, arguments: Option<Vec<(String, JsonValue)>>) -> (r:
        Result<JsonValue, String>)
        requires
            self.wf(),
        ensures
            outcome_deep(r) == tools::call_outcome(self.spec_tools(), name@, args_deep(arguments)),
    {
        self.tool_manager.call_tool(name, arguments)
    }

    /// Reads the resource with URI `uri`; see
    /// `ResourceManager::read_resource`.
    pub fn mcp_read_resource(&self, uri: &str) -> (r: Result<JsonValue, String>)
        requires
            self.wf(),
        ensures
            outcome_deep(r) == resources::read_outcome(self.spec_resources(), uri@),
    {
        self.resource_manager.read_resource(uri)
    }

    /// Invokes the prompt named `name`; see `PromptManager::get_prompt`.
    pub fn mcp_get_prompt(&self, name: &str, arguments: Option<Vec<(String, JsonValue)>>) -> (r:
        Result<Vec<PromptMessage>, String>)
        requires
            self.wf(),
        ensures
            prompts::messages_deep(r) == prompts::get_outcome(
                self.spec_prompts(),
                name@,
                args_deep(arguments),
            ),
    {
        self.prompt_manager.get_prompt(name, arguments)
    }
}

impl<T: ToolHandler, R: ResourceHandler, P: PromptHandler> Default for RustMCP<T, R, P> {
    /// Same as `new`: three empty registries.
    fn default() -> (s: Self)
        ensures
            s.spec_tools() == Seq::<FunctionTool<T>>::empty(),
            s.spec_resources() == Seq::<FunctionResource<R>>::empty(),
            s.spec_prompts() == Seq::<FunctionPrompt<P>>::empty(),
            s.wf(),
    {
        RustMCP::new()
    }
}

} // verus!
