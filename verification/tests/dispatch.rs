use rustmcp::json::JsonValue;
use rustmcp::server::prompts::{BasicPrompt, FunctionPrompt, PromptMessage};
use rustmcp::server::resources::{BasicResource, FunctionResource};
use rustmcp::server::rpc::{
    dispatch_request, handle_jsonrpc_method, serialize_response, JsonRpcError, JsonRpcRequest,
    JsonRpcResponse,
};
use rustmcp::server::tools::{BasicTool, FunctionTool};
use rustmcp::server::RustMCP;

type Server = RustMCP<BasicTool, BasicResource, BasicPrompt>;

fn server() -> Server {
    let mut s: Server = RustMCP::new();
    s.add_tool(FunctionTool::from_function(
        BasicTool::Echo { key: "message".to_string(), fallback: "Hello, World!".to_string() },
        Some("echo".to_string()),
        None,
        Some("Echoes back the provided message".to_string()),
        None,
        None,
        None,
        None,
        None,
    ))
    .unwrap();
    s.add_tool(FunctionTool::from_function(
        BasicTool::Failing("boom".to_string()),
        Some("boom".to_string()),
        None,
        Some("Always fails".to_string()),
        None,
        None,
        None,
        None,
        None,
    ))
    .unwrap();
    s.add_tool(FunctionTool::from_function(
        BasicTool::Static(JsonValue::Object(vec![(
            "ok".to_string(),
            JsonValue::Bool(true),
        )])),
        Some("status".to_string()),
        None,
        Some("Reports status".to_string()),
        None,
        None,
        None,
        None,
        None,
    ))
    .unwrap();
    s.add_resource(FunctionResource::from_function(
        BasicResource::Static(JsonValue::Str("file body".to_string())),
        "file://notes".to_string(),
        Some("notes".to_string()),
        None,
        None,
        None,
        None,
        None,
    ))
    .unwrap();
    s.add_prompt(FunctionPrompt::from_function(
        BasicPrompt::Static(vec![PromptMessage {
            role: "user".to_string(),
            content: "say hi".to_string(),
            name: None,
        }]),
        "starter".to_string(),
        None,
        None,
        None,
        None,
    ))
    .unwrap();
    s
}

fn request(method: &str, id: Option<JsonValue>, params: Option<JsonValue>) -> JsonRpcRequest {
    JsonRpcRequest {
        jsonrpc: "2.0".to_string(),
        id,
        method: method.to_string(),
        params,
    }
}

fn obj(fields: Vec<(&str, JsonValue)>) -> JsonValue {
    JsonValue::Object(
        fields
            .into_iter()
            .map(|(k, v)| (k.to_string(), v))
            .collect(),
    )
}

fn answer(method: &str, id: Option<JsonValue>, params: Option<JsonValue>) -> String {
    let s = server();
    let resp = dispatch_request(request(method, id, params), &s);
    serialize_response(&resp)
}

#[test]
fn initialize_answers_fixed_descriptor() {
    let got = answer("initialize", Some(JsonValue::Int(1)), None);
    assert_eq!(
        got,
        "{\"jsonrpc\":\"2.0\",\"id\":1,\"result\":{\"protocolVersion\":\"2024-11-05\",\
         \"capabilities\":{\"tools\":{\"listChanged\":true},\"resources\":{\"subscribe\":true,\
         \"listChanged\":true},\"prompts\":{\"listChanged\":true}},\"serverInfo\":\
         {\"name\":\"RustMCP-rs\",\"version\":\"0.1.0\"}}}"
    );
}

#[test]
fn tools_list_lists_metadata_only() {
    let got = answer("tools/list", Some(JsonValue::Int(2)), None);
    assert_eq!(
        got,
        "{\"jsonrpc\":\"2.0\",\"id\":2,\"result\":{\"tools\":[\
         {\"name\":\"echo\",\"description\":\"Echoes back the provided message\"},\
         {\"name\":\"boom\",\"description\":\"Always fails\"},\
         {\"name\":\"status\",\"description\":\"Reports status\"}]}}"
    );
}

#[test]
fn resources_list_lists_metadata_only() {
    let got = answer("resources/list", Some(JsonValue::Int(3)), None);
    assert_eq!(
        got,
        "{\"jsonrpc\":\"2.0\",\"id\":3,\"result\":{\"resources\":[\
         {\"uri\":\"file://notes\",\"name\":\"notes\",\"mimeType\":\"text/plain\"}]}}"
    );
}

#[test]
fn prompts_list_lists_metadata_only() {
    let got = answer("prompts/list", Some(JsonValue::Int(4)), None);
    assert_eq!(
        got,
        "{\"jsonrpc\":\"2.0\",\"id\":4,\"result\":{\"prompts\":[{\"name\":\"starter\"}]}}"
    );
}

#[test]
fn echo_tool_round_trip() {
    let params = obj(vec![
        ("name", JsonValue::Str("echo".to_string())),
        (
            "arguments",
            obj(vec![("message", JsonValue::Str("hi".to_string()))]),
        ),
    ]);
    let got = answer("tools/call", Some(JsonValue::Int(5)), Some(params));
    assert_eq!(
        got,
        "{\"jsonrpc\":\"2.0\",\"id\":5,\"result\":{\"content\":[\
         {\"type\":\"text\",\"text\":\"hi\"}],\"isError\":false}}"
    );
}

#[test]
fn echo_tool_default_without_message() {
    let params = obj(vec![
        ("name", JsonValue::Str("echo".to_string())),
        ("arguments", obj(vec![])),
    ]);
    let got = answer("tools/call", Some(JsonValue::Int(6)), Some(params));
    assert_eq!(
        got,
        "{\"jsonrpc\":\"2.0\",\"id\":6,\"result\":{\"content\":[\
         {\"type\":\"text\",\"text\":\"Hello, World!\"}],\"isError\":false}}"
    );
}

#[test]
fn unknown_tool_is_error_payload_not_transport_error() {
    let params = obj(vec![("name", JsonValue::Str("ghost".to_string()))]);
    let got = answer("tools/call", Some(JsonValue::Int(7)), Some(params));
    assert_eq!(
        got,
        "{\"jsonrpc\":\"2.0\",\"id\":7,\"result\":{\"content\":[\
         {\"type\":\"text\",\"text\":\"Tool 'ghost' not found\"}],\"isError\":true}}"
    );
}

#[test]
fn failing_handler_is_error_payload_with_text() {
    let params = obj(vec![("name", JsonValue::Str("boom".to_string()))]);
    let got = answer("tools/call", Some(JsonValue::Int(8)), Some(params));
    assert_eq!(
        got,
        "{\"jsonrpc\":\"2.0\",\"id\":8,\"result\":{\"content\":[\
         {\"type\":\"text\",\"text\":\"boom\"}],\"isError\":true}}"
    );
}

#[test]
fn read_known_resource_embeds_value() {
    let params = obj(vec![("uri", JsonValue::Str("file://notes".to_string()))]);
    let got = answer("resources/read", Some(JsonValue::Int(9)), Some(params));
    assert_eq!(
        got,
        "{\"jsonrpc\":\"2.0\",\"id\":9,\"result\":{\"contents\":[\
         {\"uri\":\"file://notes\",\"text\":\"file body\"}]}}"
    );
}

#[test]
fn read_unknown_resource_is_rpc_error() {
    let params = obj(vec![("uri", JsonValue::Str("file://ghost".to_string()))]);
    let got = answer("resources/read", Some(JsonValue::Int(10)), Some(params));
    assert_eq!(
        got,
        "{\"jsonrpc\":\"2.0\",\"id\":10,\"error\":{\"code\":-32000,\
         \"message\":\"Resource not found: file://ghost\"}}"
    );
}

#[test]
fn get_prompt_lists_messages() {
    let params = obj(vec![("name", JsonValue::Str("starter".to_string()))]);
    let got = answer("prompts/get", Some(JsonValue::Int(11)), Some(params));
    assert_eq!(
        got,
        "{\"jsonrpc\":\"2.0\",\"id\":11,\"result\":{\"messages\":[\
         {\"role\":\"user\",\"content\":\"say hi\"}]}}"
    );
}

#[test]
fn get_unknown_prompt_is_rpc_error() {
    let params = obj(vec![("name", JsonValue::Str("ghost".to_string()))]);
    let got = answer("prompts/get", Some(JsonValue::Int(12)), Some(params));
    assert_eq!(
        got,
        "{\"jsonrpc\":\"2.0\",\"id\":12,\"error\":{\"code\":-32000,\
         \"message\":\"Prompt not found: ghost\"}}"
    );
}

#[test]
fn unknown_method_is_method_not_found() {
    let got = answer("foo/bar", Some(JsonValue::Int(13)), None);
    assert_eq!(
        got,
        "{\"jsonrpc\":\"2.0\",\"id\":13,\"error\":{\"code\":-32601,\
         \"message\":\"Method not found\"}}"
    );
}

#[test]
fn missing_params_is_invalid_params_code() {
    let got = answer("tools/call", Some(JsonValue::Int(14)), None);
    assert_eq!(
        got,
        "{\"jsonrpc\":\"2.0\",\"id\":14,\"error\":{\"code\":-32602,\
         \"message\":\"Missing params\"}}"
    );
}

#[test]
fn non_object_params_is_invalid_params_code() {
    let got = answer(
        "resources/read",
        Some(JsonValue::Int(15)),
        Some(JsonValue::Str("not an object".to_string())),
    );
    assert_eq!(
        got,
        "{\"jsonrpc\":\"2.0\",\"id\":15,\"error\":{\"code\":-32602,\
         \"message\":\"Invalid params\"}}"
    );
}

#[test]
fn notification_gets_synthetic_success() {
    let got = answer("notifications/initialized", None, None);
    assert_eq!(got, "{\"jsonrpc\":\"2.0\",\"id\":0,\"result\":{}}");
}

#[test]
fn unknown_notification_also_gets_synthetic_success() {
    let got = answer("what/ever", None, None);
    assert_eq!(got, "{\"jsonrpc\":\"2.0\",\"id\":0,\"result\":{}}");
}

#[test]
fn string_id_is_echoed() {
    let s = server();
    let resp = handle_jsonrpc_method(
        request("foo/bar", Some(JsonValue::Str("abc".to_string())), None),
        &s,
    );
    let got = serialize_response(&resp);
    assert_eq!(
        got,
        "{\"jsonrpc\":\"2.0\",\"id\":\"abc\",\"error\":{\"code\":-32601,\
         \"message\":\"Method not found\"}}"
    );
}

#[test]
fn error_data_is_serialized_when_present() {
    let resp = JsonRpcResponse {
        jsonrpc: "2.0".to_string(),
        id: Some(JsonValue::Int(1)),
        result: None,
        error: Some(JsonRpcError {
            code: -32000,
            message: "bad".to_string(),
            data: Some(JsonValue::Array(vec![JsonValue::Int(1), JsonValue::Null])),
        }),
    };
    assert_eq!(
        serialize_response(&resp),
        "{\"jsonrpc\":\"2.0\",\"id\":1,\"error\":{\"code\":-32000,\"message\":\"bad\",\
         \"data\":[1,null]}}"
    );
}

#[test]
fn response_without_id_omits_the_member() {
    let resp = JsonRpcResponse {
        jsonrpc: "2.0".to_string(),
        id: None,
        result: Some(JsonValue::Bool(true)),
        error: None,
    };
    assert_eq!(serialize_response(&resp), "{\"jsonrpc\":\"2.0\",\"result\":true}");
}

#[test]
fn non_string_tool_result_is_rendered() {
    let params = obj(vec![("name", JsonValue::Str("status".to_string()))]);
    let got = answer("tools/call", Some(JsonValue::Int(16)), Some(params));
    assert_eq!(
        got,
        "{\"jsonrpc\":\"2.0\",\"id\":16,\"result\":{\"content\":[\
         {\"type\":\"text\",\"text\":\"{\\\"ok\\\":true}\"}],\"isError\":false}}"
    );
}

#[test]
fn fractional_id_is_carried_and_echoed() {
    let got = answer("foo/bar", Some(JsonValue::Num("2.5".to_string())), None);
    assert_eq!(
        got,
        "{\"jsonrpc\":\"2.0\",\"id\":2.5,\"error\":{\"code\":-32601,\
         \"message\":\"Method not found\"}}"
    );
}
