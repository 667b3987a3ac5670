use rustmcp::json::JsonValue;
use rustmcp::server::prompts::{BasicPrompt, FunctionPrompt, PromptManager, PromptMessage};
use rustmcp::server::resources::{BasicResource, FunctionResource, ResourceManager};
use rustmcp::server::tools::{BasicTool, DuplicateBehavior, FunctionTool, ToolManager};

fn tool(name: &str, text: &'static str) -> FunctionTool<BasicTool> {
    FunctionTool::from_function(
        BasicTool::Static(JsonValue::Str(text.to_string())),
        Some(name.to_string()),
        None,
        Some("a test tool".to_string()),
        None,
        None,
        None,
        None,
        None,
    )
}

#[test]
fn add_fresh_tool_then_get() {
    let mut manager: ToolManager<BasicTool> = ToolManager::new();
    manager.add_tool(tool("alpha", "one")).unwrap();
    let found = manager.get_tool("alpha").expect("tool should be found");
    assert_eq!(found.name, "alpha");
    assert_eq!(found.description, "a test tool");
    let listed = manager.list_tools();
    assert_eq!(listed.len(), 1);
    assert_eq!(listed[0].name, "alpha");
    assert!(manager.get_tool("beta").is_none());
}

#[test]
fn duplicate_tool_warn_replaces() {
    let mut manager: ToolManager<BasicTool> = ToolManager::with_behavior(DuplicateBehavior::Warn);
    manager.add_tool(tool("t", "first")).unwrap();
    manager.add_tool(tool("t", "second")).unwrap();
    let listed = manager.list_tools();
    assert_eq!(listed.len(), 1);
    let outcome = manager.call_tool("t", None).unwrap();
    match outcome {
        JsonValue::Str(s) => assert_eq!(s, "second"),
        _ => panic!("unexpected outcome shape"),
    }
}

#[test]
fn duplicate_tool_replace_replaces() {
    let mut manager: ToolManager<BasicTool> =
        ToolManager::with_behavior(DuplicateBehavior::Replace);
    manager.add_tool(tool("t", "first")).unwrap();
    manager.add_tool(tool("t", "second")).unwrap();
    let outcome = manager.call_tool("t", None).unwrap();
    match outcome {
        JsonValue::Str(s) => assert_eq!(s, "second"),
        _ => panic!("unexpected outcome shape"),
    }
}

#[test]
fn duplicate_tool_ignore_keeps_first() {
    let mut manager: ToolManager<BasicTool> =
        ToolManager::with_behavior(DuplicateBehavior::Ignore);
    manager.add_tool(tool("t", "first")).unwrap();
    manager.add_tool(tool("t", "second")).unwrap();
    let listed = manager.list_tools();
    assert_eq!(listed.len(), 1);
    let outcome = manager.call_tool("t", None).unwrap();
    match outcome {
        JsonValue::Str(s) => assert_eq!(s, "first"),
        _ => panic!("unexpected outcome shape"),
    }
}

#[test]
fn duplicate_tool_error_refuses() {
    let mut manager: ToolManager<BasicTool> = ToolManager::with_behavior(DuplicateBehavior::Error);
    manager.add_tool(tool("t", "first")).unwrap();
    let refused = manager.add_tool(tool("t", "second"));
    assert_eq!(refused.unwrap_err(), "Tool 't' already exists");
    let outcome = manager.call_tool("t", None).unwrap();
    match outcome {
        JsonValue::Str(s) => assert_eq!(s, "first"),
        _ => panic!("unexpected outcome shape"),
    }
}

#[test]
fn call_unknown_tool_reports_not_found() {
    let manager: ToolManager<BasicTool> = ToolManager::new();
    let err = manager.call_tool("ghost", None).unwrap_err();
    assert_eq!(err, "Tool 'ghost' not found");
}

#[test]
fn tool_defaults_fill_in() {
    let t: FunctionTool<BasicTool> = FunctionTool::from_function(
        BasicTool::Static(JsonValue::Null),
        None,
        None,
        None,
        None,
        None,
        None,
        None,
        None,
    );
    assert_eq!(t.name, "unnamed_tool");
    assert_eq!(t.description, "");
}

fn resource(uri: &str, text: &'static str) -> FunctionResource<BasicResource> {
    FunctionResource::from_function(
        BasicResource::Static(JsonValue::Str(text.to_string())),
        uri.to_string(),
        Some("a resource".to_string()),
        None,
        None,
        None,
        None,
        None,
    )
}

#[test]
fn add_fresh_resource_then_read() {
    let mut manager: ResourceManager<BasicResource> = ResourceManager::new();
    manager.add_resource(resource("file://a", "hello")).unwrap();
    match manager.read_resource("file://a").unwrap() {
        JsonValue::Str(s) => assert_eq!(s, "hello"),
        _ => panic!("unexpected outcome shape"),
    }
    let listed = manager.list_resources();
    assert_eq!(listed.len(), 1);
    assert_eq!(listed[0].uri, "file://a");
    assert_eq!(listed[0].name, "a resource");
    assert_eq!(listed[0].description, None);
    assert_eq!(listed[0].mime_type.as_deref(), Some("text/plain"));
}

#[test]
fn resource_defaults_fill_in() {
    let r = resource("file://b", "x");
    assert_eq!(r.name, "a resource");
    assert_eq!(r.description, "");
    assert_eq!(r.mime_type, "text/plain");
    assert!(r.tags.is_empty());
    assert!(r.annotations.is_empty());
}

#[test]
fn read_unknown_resource_reports_not_found() {
    let manager: ResourceManager<BasicResource> = ResourceManager::new();
    let err = manager.read_resource("file://ghost").unwrap_err();
    assert_eq!(err, "Resource not found: file://ghost");
}

#[test]
fn duplicate_resource_error_refuses() {
    let mut manager: ResourceManager<BasicResource> =
        ResourceManager::with_behavior(rustmcp::server::resources::DuplicateBehavior::Error);
    manager.add_resource(resource("u", "first")).unwrap();
    let refused = manager.add_resource(resource("u", "second"));
    assert_eq!(refused.unwrap_err(), "Resource 'u' already exists");
}

fn prompt(name: &str, text: &'static str) -> FunctionPrompt<BasicPrompt> {
    FunctionPrompt::from_function(
        BasicPrompt::Static(vec![PromptMessage {
            role: "user".to_string(),
            content: text.to_string(),
            name: None,
        }]),
        name.to_string(),
        Some("a prompt".to_string()),
        None,
        None,
        None,
    )
}

#[test]
fn add_fresh_prompt_then_get() {
    let mut manager: PromptManager<BasicPrompt> = PromptManager::new();
    manager.add_prompt(prompt("greet", "hello there")).unwrap();
    let messages = manager.get_prompt("greet", None).unwrap();
    assert_eq!(messages.len(), 1);
    assert_eq!(messages[0].role, "user");
    assert_eq!(messages[0].content, "hello there");
    let listed = manager.list_prompts();
    assert_eq!(listed.len(), 1);
    assert_eq!(listed[0].name, "greet");
    assert_eq!(listed[0].description.as_deref(), Some("a prompt"));
}

#[test]
fn get_unknown_prompt_reports_not_found() {
    let manager: PromptManager<BasicPrompt> = PromptManager::new();
    let err = manager.get_prompt("ghost", None).unwrap_err();
    assert_eq!(err, "Prompt not found: ghost");
}

#[test]
fn duplicate_prompt_error_refuses() {
    let mut manager: PromptManager<BasicPrompt> =
        PromptManager::with_behavior(rustmcp::server::prompts::DuplicateBehavior::Error);
    manager.add_prompt(prompt("p", "first")).unwrap();
    let refused = manager.add_prompt(prompt("p", "second"));
    assert_eq!(refused.unwrap_err(), "Prompt 'p' already exists");
}

#[test]
fn listing_hides_handlers_and_keeps_metadata() {
    let mut first: ToolManager<BasicTool> = ToolManager::new();
    let mut second: ToolManager<BasicTool> = ToolManager::new();
    first.add_tool(tool("same", "handler one")).unwrap();
    second.add_tool(tool("same", "handler two")).unwrap();
    let a = rustmcp::server::tools::tool_meta_json(first.list_tools()[0]);
    let b = rustmcp::server::tools::tool_meta_json(second.list_tools()[0]);
    assert_eq!(
        rustmcp::json::render_json(&a),
        rustmcp::json::render_json(&b)
    );
    assert_eq!(
        rustmcp::json::render_json(&a),
        "{\"name\":\"same\",\"description\":\"a test tool\"}"
    );
}

#[test]
fn version_string() {
    assert_eq!(rustmcp::version(), "0.1.0");
}

#[test]
fn settings_defaults() {
    let s = rustmcp::settings::Settings::new();
    assert_eq!(s.host, "127.0.0.1");
    assert_eq!(s.port, 8000);
    assert!(!s.debug());
    assert_eq!(s.resource_prefix_format(), "resource://");
    assert_eq!(rustmcp::settings::default_resource_prefix_format(), "resource://");
}

#[test]
fn duplicate_resource_warn_replaces() {
    let mut manager: ResourceManager<BasicResource> =
        ResourceManager::with_behavior(rustmcp::server::resources::DuplicateBehavior::Warn);
    manager.add_resource(resource("u", "first")).unwrap();
    manager.add_resource(resource("u", "second")).unwrap();
    match manager.read_resource("u").unwrap() {
        JsonValue::Str(s) => assert_eq!(s, "second"),
        _ => panic!("unexpected outcome shape"),
    }
}

#[test]
fn duplicate_prompt_ignore_keeps_first() {
    let mut manager: PromptManager<BasicPrompt> =
        PromptManager::with_behavior(rustmcp::server::prompts::DuplicateBehavior::Ignore);
    manager.add_prompt(prompt("p", "first")).unwrap();
    manager.add_prompt(prompt("p", "second")).unwrap();
    let messages = manager.get_prompt("p", None).unwrap();
    assert_eq!(messages[0].content, "first");
}

#[test]
fn tool_without_handler_reports_unavailable() {
    let t: FunctionTool<BasicTool> = FunctionTool {
        name: "empty".to_string(),
        title: None,
        description: String::new(),
        input_schema: None,
        output_schema: None,
        annotations: None,
        tags: None,
        meta: None,
        function: None,
    };
    let err = t.call(None).unwrap_err();
    assert_eq!(err, "Tool function not available");
}

#[test]
fn tool_metadata_serializes_all_present_fields() {
    let t: FunctionTool<BasicTool> = FunctionTool::from_function(
        BasicTool::Static(JsonValue::Null),
        Some("rich".to_string()),
        Some("Rich tool".to_string()),
        Some("does things".to_string()),
        Some(JsonValue::Object(vec![(
            "type".to_string(),
            JsonValue::Str("object".to_string()),
        )])),
        None,
        Some(rustmcp::ToolAnnotations {
            title: Some("hint title".to_string()),
            read_only_hint: Some(true),
            destructive_hint: None,
            idempotent_hint: None,
            open_world_hint: Some(false),
        }),
        Some(vec!["a".to_string(), "b".to_string()]),
        Some(JsonValue::Object(vec![(
            "origin".to_string(),
            JsonValue::Str("test".to_string()),
        )])),
    );
    let rendered = rustmcp::json::render_json(&rustmcp::server::tools::tool_meta_json(&t));
    assert_eq!(
        rendered,
        "{\"name\":\"rich\",\"title\":\"Rich tool\",\"description\":\"does things\",\
         \"inputSchema\":{\"type\":\"object\"},\
         \"annotations\":{\"title\":\"hint title\",\"readOnlyHint\":true,\"openWorldHint\":false},\
         \"tags\":[\"a\",\"b\"],\"_meta\":{\"origin\":\"test\"}}"
    );
}

#[test]
fn prompt_listing_drops_empty_meta_object() {
    let mut manager: PromptManager<BasicPrompt> = PromptManager::new();
    let mut p = prompt("with_meta", "x");
    p.meta = Some(JsonValue::Object(vec![(
        "k".to_string(),
        JsonValue::Int(1),
    )]));
    manager.add_prompt(p).unwrap();
    let mut q = prompt("empty_meta", "y");
    q.meta = Some(JsonValue::Object(vec![]));
    manager.add_prompt(q).unwrap();
    let mut r = prompt("non_object_meta", "z");
    r.meta = Some(JsonValue::Int(3));
    manager.add_prompt(r).unwrap();
    let listed = manager.list_prompts();
    assert!(listed[0].meta.is_some());
    assert!(listed[1].meta.is_none());
    assert!(listed[2].meta.is_none());
}

#[test]
fn cloning_a_tool_keeps_metadata_and_drops_handler() {
    let t = tool("copy_me", "payload");
    let copy = t.clone();
    assert_eq!(copy.name, "copy_me");
    assert_eq!(copy.description, "a test tool");
    assert!(copy.function.is_none());
    let err = copy.call(None).unwrap_err();
    assert_eq!(err, "Tool function not available");
    assert_eq!(
        rustmcp::json::render_json(&rustmcp::server::tools::tool_meta_json(&t)),
        rustmcp::json::render_json(&rustmcp::server::tools::tool_meta_json(&copy))
    );
}
