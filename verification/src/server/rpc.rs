//! JSON-RPC envelopes and the dispatcher shared by every transport.
//!
//! A transport parses a frame into a `JsonRpcRequest`, hands it to
//! `dispatch_request`, and writes the one resulting `JsonRpcResponse`
//! back.  Routing and error codes therefore cannot drift between
//! transports.
//!
//! A request without an id is a notification.  This server answers every
//! notification with a synthetic success response carrying id `0`; that
//! mirrors the observed behaviour this library standardises, although the
//! JSON-RPC specification itself would forbid any response.

use vstd::prelude::*;
use vstd::string::StringExecFns;

use crate::json::JVal;
use crate::json::JsonValue;
use crate::json::args_deep;
use crate::json::clone_fields;
use crate::json::deep_fields;
use crate::json::find_field;
use crate::json::jobj_get;
use crate::json::lemma_deep_fields;
use crate::json::lemma_jobj_get_absent;
use crate::json::lemma_jobj_get_at;
use crate::json::outcome_deep;
use crate::json::render;
use crate::json::render_json;
use crate::server::RustMCP;
use crate::server::prompts;
use crate::server::prompts::PromptHandler;
use crate::server::prompts::msgs_jval;
use crate::server::resources;
use crate::server::resources::Resource;
use crate::server::resources::ResourceHandler;
use crate::server::resources::resource_json;
use crate::server::resources::resource_jval;
use crate::server::resources::resource_meta_jval;
use crate::server::tools;
use crate::server::tools::ToolHandler;
use crate::server::tools::tool_meta_jval;
use crate::server::tools::tools_list_json;
use crate::server::tools::tools_list_jval;

verus! {

/// An inbound JSON-RPC message; a missing id makes it a notification.
pub struct JsonRpcRequest {
    pub jsonrpc: String,
    pub id: Option<JsonValue>,
    pub method: String,
    pub params: Option<JsonValue>,
}

/// An outbound JSON-RPC message: the echoed id and a result or an error.
pub struct JsonRpcResponse {
    pub jsonrpc: String,
    pub id: Option<JsonValue>,
    pub result: Option<JsonValue>,
    pub error: Option<JsonRpcError>,
}

/// A JSON-RPC message that expects no response.
pub struct JsonRpcNotification {
    pub jsonrpc: String,
    pub method: String,
    pub params: Option<JsonValue>,
}

/// The error member of a JSON-RPC response.
pub struct JsonRpcError {
    pub code: i32,
    pub message: String,
    pub data: Option<JsonValue>,
}

/// The wire view of a JSON-RPC error object.
pub open spec fn error_jval(e: JsonRpcError) -> JVal {
    JVal::Object(
        seq![("code"@, JVal::Int(e.code as int)), ("message"@, JVal::Str(e.message@))] + (
        match e.data {
            Some(d) => seq![("data"@, d.deep())],
            None => Seq::empty(),
        }),
    )
}

/// The wire view of a JSON-RPC response: absent members are left out.
pub open spec fn response_jval(r: JsonRpcResponse) -> JVal {
    JVal::Object(
        seq![("jsonrpc"@, JVal::Str(r.jsonrpc@))] + (match r.id {
            Some(v) => seq![("id"@, v.deep())],
            None => Seq::empty(),
        }) + (match r.result {
            Some(v) => seq![("result"@, v.deep())],
            None => Seq::empty(),
        }) + (match r.error {
            Some(e) => seq![("error"@, error_jval(e))],
            None => Seq::empty(),
        }),
    )
}

/// The fixed result of `initialize`: protocol version, capability flags,
/// and the server identity.
pub open spec fn initialize_jval() -> JVal {
    JVal::Object(
        seq![
            ("protocolVersion"@, JVal::Str("2024-11-05"@)),
            (
                "capabilities"@,
                JVal::Object(
                    seq![
                        ("tools"@, JVal::Object(seq![("listChanged"@, JVal::Bool(true))])),
                        (
                            "resources"@,
                            JVal::Object(
                                seq![
                                    ("subscribe"@, JVal::Bool(true)),
                                    ("listChanged"@, JVal::Bool(true)),
                                ],
                            ),
                        ),
                        ("prompts"@, JVal::Object(seq![("listChanged"@, JVal::Bool(true))])),
                    ],
                ),
            ),
            (
                "serverInfo"@,
                JVal::Object(
                    seq![("name"@, JVal::Str("RustMCP-rs"@)), ("version"@, JVal::Str("0.1.0"@))],
                ),
            ),
        ],
    )
}

/// The content envelope a tool call answers with: one text block and the
/// `isError` flag.
pub open spec fn tool_content_jval(text: Seq<char>, is_err: bool) -> JVal {
    JVal::Object(
        seq![
            (
                "content"@,
                JVal::Array(
                    seq![
                        JVal::Object(
                            seq![("type"@, JVal::Str("text"@)), ("text"@, JVal::Str(text))],
                        ),
                    ],
                ),
            ),
            ("isError"@, JVal::Bool(is_err)),
        ],
    )
}

/// The text a successful tool outcome is carried as: a string value is
/// carried as itself, bare; any other value as its JSON rendering.
pub open spec fn content_text(v: JVal) -> Seq<char> {
    match v {
        JVal::Str(s) => s,
        _ => render(v),
    }
}

/// The string under `key` in a parameter object, or the empty string when
/// the key is absent or not a string.
pub open spec fn param_str(fields: Seq<(Seq<char>, JVal)>, key: Seq<char>) -> Seq<char> {
    match jobj_get(fields, key) {
        Some(JVal::Str(s)) => s,
        _ => Seq::empty(),
    }
}

/// The `arguments` object in a parameter object, or absent when the key
/// is missing or not an object.
pub open spec fn param_args(fields: Seq<(Seq<char>, JVal)>) -> Option<Seq<(Seq<char>, JVal)>> {
    match jobj_get(fields, "arguments"@) {
        Some(JVal::Object(f)) => Some(f),
        _ => None,
    }
}

/// The method table: what result or error the dispatcher answers with,
/// for every method name and parameter value.
pub open spec fn method_response<T: ToolHandler, R: ResourceHandler, P: PromptHandler>(
    state: RustMCP<T, R, P>,
    method: Seq<char>,
    params: Option<JsonValue>,
) -> (Option<JVal>, Option<(int, Seq<char>)>) {
    if method == "initialize"@ {
        (Some(initialize_jval()), None)
    } else if method == "tools/list"@ {
        (Some(JVal::Object(seq![("tools"@, tools_list_jval(state.spec_tools()))])), None)
    } else if method == "resources/list"@ {
        (
            Some(
                JVal::Object(
                    seq![
                        (
                            "resources"@,
                            JVal::Array(
                                Seq::new(
                                    state.spec_resources().len(),
                                    |i: int| resource_meta_jval(state.spec_resources()[i]),
                                ),
                            ),
                        ),
                    ],
                ),
            ),
            None,
        )
    } else if method == "prompts/list"@ {
        (
            Some(
                JVal::Object(
                    seq![
                        (
                            "prompts"@,
                            JVal::Array(
                                Seq::new(
                                    state.spec_prompts().len(),
                                    |i: int| prompts::prompt_meta_jval(state.spec_prompts()[i]),
                                ),
                            ),
                        ),
                    ],
                ),
            ),
            None,
        )
    } else if method == "tools/call"@ {
        match params {
            None => (None, Some((-32602, "Missing params"@))),
            Some(p) => if !(p is Object) {
                (None, Some((-32602, "Invalid params"@)))
            } else {
                let fields = deep_fields(p->Object_0, p->Object_0@.len() as int);
                match tools::call_outcome(
                    state.spec_tools(),
                    param_str(fields, "name"@),
                    param_args(fields),
                ) {
                    Ok(v) => (Some(tool_content_jval(content_text(v), false)), None),
                    Err(e) => (Some(tool_content_jval(e, true)), None),
                }
            },
        }
    } else if method == "resources/read"@ {
        match params {
            None => (None, Some((-32602, "Missing params"@))),
            Some(p) => if !(p is Object) {
                (None, Some((-32602, "Invalid params"@)))
            } else {
                let fields = deep_fields(p->Object_0, p->Object_0@.len() as int);
                let uri = param_str(fields, "uri"@);
                match resources::read_outcome(state.spec_resources(), uri) {
                    Ok(v) => (
                        Some(
                            JVal::Object(
                                seq![
                                    (
                                        "contents"@,
                                        JVal::Array(
                                            seq![
                                                JVal::Object(
                                                    seq![
                                                        ("uri"@, JVal::Str(uri)),
                                                        ("text"@, v),
                                                    ],
                                                ),
                                            ],
                                        ),
                                    ),
                                ],
                            ),
                        ),
                        None,
                    ),
                    Err(e) => (None, Some((-32000, e))),
                }
            },
        }
    } else if method == "prompts/get"@ {
        match params {
            None => (None, Some((-32602, "Missing params"@))),
            Some(p) => if !(p is Object) {
                (None, Some((-32602, "Invalid params"@)))
            } else {
                let fields = deep_fields(p->Object_0, p->Object_0@.len() as int);
                match prompts::get_outcome(
                    state.spec_prompts(),
                    param_str(fields, "name"@),
                    param_args(fields),
                ) {
                    Ok(ms) => (Some(JVal::Object(seq![("messages"@, msgs_jval(ms))])), None),
                    Err(e) => (None, Some((-32000, e))),
                }
            },
        }
    } else {
        (None, Some((-32601, "Method not found"@)))
    }
}

/// True when `resp` answers a request with the given id, method and
/// parameters as the method table demands.
pub open spec fn responds_to<T: ToolHandler, R: ResourceHandler, P: PromptHandler>(
    resp: JsonRpcResponse,
    state: RustMCP<T, R, P>,
    id: Option<JsonValue>,
    method: Seq<char>,
    params: Option<JsonValue>,
) -> bool {
    let pair = method_response(state, method, params);
    &&& resp.jsonrpc@ == "2.0"@
    &&& resp.id == id
    &&& (match resp.result {
        Some(v) => pair.0 == Some(v.deep()),
        None => pair.0 is None,
    })
    &&& (match resp.error {
        Some(e) => pair.1 == Some((e.code as int, e.message@)) && e.data is None,
        None => pair.1 is None,
    })
}

/// A tool-call failure is carried inside a successful result payload with
/// `isError` set — the text being the handler's error or the not-found
/// message — and never as a JSON-RPC error object.
pub proof fn lemma_tool_failure_stays_in_result<
    T: ToolHandler,
    R: ResourceHandler,
    P: PromptHandler,
>(state: RustMCP<T, R, P>, p: JsonValue)
    requires
        p is Object,
    ensures
        ({
            let fields = deep_fields(p->Object_0, p->Object_0@.len() as int);
            let pair = method_response(state, "tools/call"@, Some(p));
            &&& pair.1 is None
            &&& (match tools::call_outcome(
                state.spec_tools(),
                param_str(fields, "name"@),
                param_args(fields),
            ) {
                Ok(v) => pair.0 == Some(tool_content_jval(content_text(v), false)),
                Err(e) => pair.0 == Some(tool_content_jval(e, true)),
            })
        }),
{
    reveal_strlit("initialize");
    reveal_strlit("tools/list");
    reveal_strlit("resources/list");
    reveal_strlit("prompts/list");
    reveal_strlit("tools/call");
    assert("initialize"@.len() == 10);
    assert("tools/list"@.len() == 10);
    assert("resources/list"@.len() == 14);
    assert("prompts/list"@.len() == 12);
    assert("tools/call"@.len() == 10);
    assert("tools/call"@[0] == 't' && "initialize"@[0] == 'i');
    assert("tools/call"@[6] == 'c' && "tools/list"@[6] == 'l');
}

/// Reading an unknown URI answers with a JSON-RPC error object carrying
/// code -32000 and the not-found message, and no result.
pub proof fn lemma_read_unknown_uri<T: ToolHandler, R: ResourceHandler, P: PromptHandler>(
    state: RustMCP<T, R, P>,
    p: JsonValue,
)
    requires
        p is Object,
        !resources::has_resource(
            state.spec_resources(),
            param_str(deep_fields(p->Object_0, p->Object_0@.len() as int), "uri"@),
        ),
    ensures
        ({
            let uri = param_str(deep_fields(p->Object_0, p->Object_0@.len() as int), "uri"@);
            let pair = method_response(state, "resources/read"@, Some(p));
            &&& pair.0 is None
            &&& pair.1 == Some((-32000int, "Resource not found: "@ + uri))
        }),
{
    reveal_strlit("initialize");
    reveal_strlit("tools/list");
    reveal_strlit("resources/list");
    reveal_strlit("prompts/list");
    reveal_strlit("tools/call");
    reveal_strlit("resources/read");
    assert("initialize"@.len() == 10);
    assert("tools/list"@.len() == 10);
    assert("resources/list"@.len() == 14);
    assert("prompts/list"@.len() == 12);
    assert("tools/call"@.len() == 10);
    assert("resources/read"@.len() == 14);
    assert("resources/read"@[10] == 'r' && "resources/list"@[10] == 'l');
}

/// A method outside the table answers with a JSON-RPC error object
/// carrying code -32601, whatever the parameters.
pub proof fn lemma_unknown_method<T: ToolHandler, R: ResourceHandler, P: PromptHandler>(
    state: RustMCP<T, R, P>,
    method: Seq<char>,
    params: Option<JsonValue>,
)
    requires
        method != "initialize"@,
        method != "tools/list"@,
        method != "resources/list"@,
        method != "prompts/list"@,
        method != "tools/call"@,
        method != "resources/read"@,
        method != "prompts/get"@,
    ensures
        method_response(state, method, params).0 is None,
        method_response(state, method, params).1 == Some((-32601int, "Method not found"@)),
{
}

/// Builds an object with one field.
fn jobj1(k1: &str, v1: JsonValue) -> (out: JsonValue)
    ensures
        out.deep() == JVal::Object(seq![(k1@, v1.deep())]),
{
    let mut fields: Vec<(String, JsonValue)> = Vec::new();
    fields.push((String::from_str(k1), v1));
    proof {
        lemma_deep_fields(fields, 1);
        assert(deep_fields(fields, 1) =~= seq![(k1@, v1.deep())]);
    }
    JsonValue::Object(fields)
}

/// Builds an object with two fields.
fn jobj2(k1: &str, v1: JsonValue, k2: &str, v2: JsonValue) -> (out: JsonValue)
    ensures
        out.deep() == JVal::Object(seq![(k1@, v1.deep()), (k2@, v2.deep())]),
{
    let mut fields: Vec<(String, JsonValue)> = Vec::new();
    fields.push((String::from_str(k1), v1));
    fields.push((String::from_str(k2), v2));
    proof {
        lemma_deep_fields(fields, 2);
        assert(deep_fields(fields, 2) =~= seq![(k1@, v1.deep()), (k2@, v2.deep())]);
    }
    JsonValue::Object(fields)
}

/// Builds an object with three fields.
fn jobj3(k1: &str, v1: JsonValue, k2: &str, v2: JsonValue, k3: &str, v3: JsonValue) -> (out:
    JsonValue)
    ensures
        out.deep() == JVal::Object(seq![(k1@, v1.deep()), (k2@, v2.deep()), (k3@, v3.deep())]),
{
    let mut fields: Vec<(String, JsonValue)> = Vec::new();
    fields.push((String::from_str(k1), v1));
    fields.push((String::from_str(k2), v2));
    fields.push((String::from_str(k3), v3));
    proof {
        lemma_deep_fields(fields, 3);
        assert(deep_fields(fields, 3) =~= seq![(k1@, v1.deep()), (k2@, v2.deep()), (k3@, v3.deep())]);
    }
    JsonValue::Object(fields)
}

/// Builds an array with one element.
fn jarr1(v1: JsonValue) -> (out: JsonValue)
    ensures
        out.deep() == JVal::Array(seq![v1.deep()]),
{
    let mut items: Vec<JsonValue> = Vec::new();
    items.push(v1);
    proof {
        crate::json::lemma_deep_elems(items, 1);
        assert(crate::json::deep_elems(items, 1) =~= seq![v1.deep()]);
    }
    JsonValue::Array(items)
}

/// Builds the fixed result of `initialize`.
fn initialize_result_json() -> (out: JsonValue)
    ensures
        out.deep() == initialize_jval(),
{
    let tools_caps = jobj1("listChanged", JsonValue::Bool(true));
    let resources_caps = jobj2("subscribe", JsonValue::Bool(true), "listChanged", JsonValue::Bool(true));
    let prompts_caps = jobj1("listChanged", JsonValue::Bool(true));
    let capabilities = jobj3(
        "tools",
        tools_caps,
        "resources",
        resources_caps,
        "prompts",
        prompts_caps,
    );
    let server_info = jobj2(
        "name",
        JsonValue::Str(String::from_str("RustMCP-rs")),
        "version",
        JsonValue::Str(String::from_str("0.1.0")),
    );
    let out = jobj3(
        "protocolVersion",
        JsonValue::Str(String::from_str("2024-11-05")),
        "capabilities",
        capabilities,
        "serverInfo",
        server_info,
    );
    proof {
        assert(out.deep()->Object_0 =~= initialize_jval()->Object_0);
    }
    out
}

/// Builds the content envelope for a tool call answer.
fn tool_content_json(text: String, is_err: bool) -> (out: JsonValue)
    ensures
        out.deep() == tool_content_jval(text@, is_err),
{
    let block = jobj2(
        "type",
        JsonValue::Str(String::from_str("text")),
        "text",
        JsonValue::Str(text),
    );
    let content = jarr1(block);
    let out = jobj2("content", content, "isError", JsonValue::Bool(is_err));
    proof {
        assert(out.deep()->Object_0 =~= tool_content_jval(text@, is_err)->Object_0);
    }
    out
}

/// Turns a tool outcome into the content envelope the wire carries: on
/// success a string value bare and any other value rendered, and on
/// failure the error text with `isError` set.
pub fn tool_call_response_json(outcome: Result<JsonValue, String>) -> (out: JsonValue)
    ensures
        out.deep() == (match outcome_deep(outcome) {
            Ok(v) => tool_content_jval(content_text(v), false),
            Err(e) => tool_content_jval(e, true),
        }),
{
    match outcome {
        Ok(JsonValue::Str(s)) => tool_content_json(s, false),
        Ok(v) => {
            let text = render_json(&v);
            tool_content_json(text, false)
        },
        Err(e) => tool_content_json(e, true),
    }
}

/// The string under `key` in `fields`, or the empty string when the key
/// is absent or not bound to a string.
fn param_string(fields: &Vec<(String, JsonValue)>, key: &str) -> (s: String)
    ensures
        s@ == param_str(deep_fields(*fields, fields@.len() as int), key@),
{
    let k = String::from_str(key);
    let found = find_field(fields, &k);
    proof {
        lemma_deep_fields(*fields, fields@.len() as int);
    }
    let ghost df = deep_fields(*fields, fields@.len() as int);
    match found {
        Some(i) => {
            proof {
                lemma_jobj_get_at(df, key@, i as int);
            }
            match &fields[i].1 {
                JsonValue::Str(s) => s.clone(),
                _ => String::new(),
            }
        },
        None => {
            proof {
                lemma_jobj_get_absent(df, key@);
            }
            String::new()
        },
    }
}

/// The `arguments` object in `fields`, deep-copied for the handler, or
/// absent when the key is missing or not bound to an object.
fn param_arguments(fields: &Vec<(String, JsonValue)>) -> (r: Option<Vec<(String, JsonValue)>>)
    ensures
        args_deep(r) == param_args(deep_fields(*fields, fields@.len() as int)),
{
    let k = String::from_str("arguments");
    let found = find_field(fields, &k);
    proof {
        lemma_deep_fields(*fields, fields@.len() as int);
    }
    let ghost df = deep_fields(*fields, fields@.len() as int);
    match found {
        Some(i) => {
            proof {
                lemma_jobj_get_at(df, "arguments"@, i as int);
            }
            match &fields[i].1 {
                JsonValue::Object(obj) => Some(clone_fields(obj)),
                _ => None,
            }
        },
        None => {
            proof {
                lemma_jobj_get_absent(df, "arguments"@);
            }
            None
        },
    }
}

/// True when `method` reads as `lit`.
fn method_is(method: &String, lit: &str) -> (b: bool)
    ensures
        b == (method@ == lit@),
{
    let l = String::from_str(lit);
    method.eq(&l)
}

/// A success response carrying `result`.
fn success_response(id: Option<JsonValue>, result: JsonValue) -> (r: JsonRpcResponse)
    ensures
        r.jsonrpc@ == "2.0"@,
        r.id == id,
        r.result == Some(result),
        r.error is None,
{
    JsonRpcResponse {
        jsonrpc: String::from_str("2.0"),
        id,
        result: Some(result),
        error: None,
    }
}

/// An error response carrying `code` and `message`.
fn error_response(id: Option<JsonValue>, code: i32, message: String) -> (r: JsonRpcResponse)
    ensures
        r.jsonrpc@ == "2.0"@,
        r.id == id,
        r.result is None,
        r.error matches Some(e) && e.code == code && e.message == message && e.data is None,
{
    JsonRpcResponse {
        jsonrpc: String::from_str("2.0"),
        id,
        result: None,
        error: Some(JsonRpcError { code, message, data: None }),
    }
}

/// Builds the listing array for resource metadata projections.
pub fn resource_listing_json(listing: &Vec<Resource>) -> (out: JsonValue)
    ensures
        out.deep() == JVal::Array(Seq::new(listing@.len(), |i: int| resource_jval(listing@[i]))),
{
    let n = listing.len();
    let mut items: Vec<JsonValue> = Vec::new();
    let mut i: usize = 0;
    while i < n
        invariant
            i <= n,
            n == listing@.len(),
            items@.len() == i,
            forall|j: int| 0 <= j < i ==> items@[j].deep() == resource_jval(listing@[j]),
        decreases n - i,
    {
        let v = resource_json(&listing[i]);
        items.push(v);
        i = i + 1;
    }
    proof {
        crate::json::lemma_deep_elems(items, n as int);
        assert(crate::json::deep_elems(items, n as int) =~= Seq::new(
            listing@.len(),
            |i: int| resource_jval(listing@[i]),
        ));
    }
    JsonValue::Array(items)
}

/// Builds the listing array for prompt metadata projections.
pub fn prompt_listing_json(listing: &Vec<prompts::Prompt>) -> (out: JsonValue)
    ensures
        out.deep() == JVal::Array(
            Seq::new(listing@.len(), |i: int| prompts::prompt_jval(listing@[i])),
        ),
{
    let n = listing.len();
    let mut items: Vec<JsonValue> = Vec::new();
    let mut i: usize = 0;
    while i < n
        invariant
            i <= n,
            n == listing@.len(),
            items@.len() == i,
            forall|j: int| 0 <= j < i ==> items@[j].deep() == prompts::prompt_jval(listing@[j]),
        decreases n - i,
    {
        let v = prompts::prompt_json(&listing[i]);
        items.push(v);
        i = i + 1;
    }
    proof {
        crate::json::lemma_deep_elems(items, n as int);
        assert(crate::json::deep_elems(items, n as int) =~= Seq::new(
            listing@.len(),
            |i: int| prompts::prompt_jval(listing@[i]),
        ));
    }
    JsonValue::Array(items)
}

/// Routes one identified request to the registries and answers exactly as
/// the method table demands.
pub fn handle_jsonrpc_method<T: ToolHandler, R: ResourceHandler, P: PromptHandler>(
    request: JsonRpcRequest,
    state: &RustMCP<T, R, P>,
) -> (resp: JsonRpcResponse)
    requires
        state.wf(),
    ensures
        responds_to(resp, *state, request.id, request.method@, request.params),
{
    let JsonRpcRequest { jsonrpc: _, id, method, params } = request;
    if method_is(&method, "initialize") {
        let result = initialize_result_json();
        success_response(id, result)
    } else if method_is(&method, "tools/list") {
        let listed = state.mcp_list_tools();
        let list = tools_list_json(&listed);
        proof {
            assert(Seq::new(listed@.len(), |i: int| tool_meta_jval(*listed@[i])) =~= Seq::new(
                state.spec_tools().len(),
                |i: int| tool_meta_jval(state.spec_tools()[i]),
            ));
        }
        let result = jobj1("tools", list);
        success_response(id, result)
    } else if method_is(&method, "resources/list") {
        let listed = state.mcp_list_resources();
        let list = resource_listing_json(&listed);
        proof {
            assert forall|i: int| 0 <= i < listed@.len() implies resource_jval(listed@[i])
                == resource_meta_jval(state.spec_resources()[i]) by {
                resources::lemma_resource_view_jval(listed@[i], state.spec_resources()[i]);
            }
            assert(Seq::new(listed@.len(), |i: int| resource_jval(listed@[i])) =~= Seq::new(
                state.spec_resources().len(),
                |i: int| resource_meta_jval(state.spec_resources()[i]),
            ));
        }
        let result = jobj1("resources", list);
        success_response(id, result)
    } else if method_is(&method, "prompts/list") {
        let listed = state.mcp_list_prompts();
        let list = prompt_listing_json(&listed);
        proof {
            assert forall|i: int| 0 <= i < listed@.len() implies prompts::prompt_jval(listed@[i])
                == prompts::prompt_meta_jval(state.spec_prompts()[i]) by {
                prompts::lemma_prompt_view_jval(listed@[i], state.spec_prompts()[i]);
            }
            assert(Seq::new(listed@.len(), |i: int| prompts::prompt_jval(listed@[i]))
                =~= Seq::new(
                state.spec_prompts().len(),
                |i: int| prompts::prompt_meta_jval(state.spec_prompts()[i]),
            ));
        }
        let result = jobj1("prompts", list);
        success_response(id, result)
    } else if method_is(&method, "tools/call") {
        match params {
            None => error_response(id, -32602, String::from_str("Missing params")),
            Some(p) => match p {
                JsonValue::Object(fields) => {
                    let name = param_string(&fields, "name");
                    let args = param_arguments(&fields);
                    let outcome = state.mcp_call_tool(name.as_str(), args);
                    let result = tool_call_response_json(outcome);
                    success_response(id, result)
                },
                _ => error_response(id, -32602, String::from_str("Invalid params")),
            },
        }
    } else if method_is(&method, "resources/read") {
        match params {
            None => error_response(id, -32602, String::from_str("Missing params")),
            Some(p) => match p {
                JsonValue::Object(fields) => {
                    let uri = param_string(&fields, "uri");
                    match state.mcp_read_resource(uri.as_str()) {
                        Ok(value) => {
                            let inner = jobj2(
                                "uri",
                                JsonValue::Str(uri.clone()),
                                "text",
                                value,
                            );
                            let contents = jarr1(inner);
                            let result = jobj1("contents", contents);
                            success_response(id, result)
                        },
                        Err(e) => error_response(id, -32000, e),
                    }
                },
                _ => error_response(id, -32602, String::from_str("Invalid params")),
            },
        }
    } else if method_is(&method, "prompts/get") {
        match params {
            None => error_response(id, -32602, String::from_str("Missing params")),
            Some(p) => match p {
                JsonValue::Object(fields) => {
                    let name = param_string(&fields, "name");
                    let args = param_arguments(&fields);
                    match state.mcp_get_prompt(name.as_str(), args) {
                        Ok(messages) => {
                            let list = prompts::messages_json(&messages);
                            let result = jobj1("messages", list);
                            success_response(id, result)
                        },
                        Err(e) => error_response(id, -32000, e),
                    }
                },
                _ => error_response(id, -32602, String::from_str("Invalid params")),
            },
        }
    } else {
        error_response(id, -32601, String::from_str("Method not found"))
    }
}

/// Dispatches one inbound message.  An identified request is routed by
/// the method table; a notification (no id) is answered with the
/// synthetic success response this server standardises on.
pub fn dispatch_request<T: ToolHandler, R: ResourceHandler, P: PromptHandler>(
    request: JsonRpcRequest,
    state: &RustMCP<T, R, P>,
) -> (resp: JsonRpcResponse)
    requires
        state.wf(),
    ensures
        (match request.id {
            Some(_) => responds_to(resp, *state, request.id, request.method@, request.params),
            None => {
                &&& resp.jsonrpc@ == "2.0"@
                &&& resp.id matches Some(v) && v.deep() == JVal::Int(0)
                &&& resp.result matches Some(rv) && rv.deep() == JVal::Object(Seq::empty())
                &&& resp.error is None
            },
        }),
{
    if request.id.is_none() {
        JsonRpcResponse {
            jsonrpc: String::from_str("2.0"),
            id: Some(JsonValue::Int(0)),
            result: Some(JsonValue::Object(Vec::new())),
            error: None,
        }
    } else {
        handle_jsonrpc_method(request, state)
    }
}

/// Builds the wire value of a JSON-RPC error object.
fn error_json(e: &JsonRpcError) -> (out: JsonValue)
    ensures
        out.deep() == error_jval(*e),
{
    let mut fields: Vec<(String, JsonValue)> = Vec::new();
    fields.push((String::from_str("code"), JsonValue::Int(e.code as i64)));
    fields.push((String::from_str("message"), JsonValue::Str(e.message.clone())));
    if let Some(d) = &e.data {
        fields.push((String::from_str("data"), d.clone()));
    }
    proof {
        lemma_deep_fields(fields, fields@.len() as int);
        assert(deep_fields(fields, fields@.len() as int) =~= error_jval(*e)->Object_0);
    }
    JsonValue::Object(fields)
}

/// Builds the wire value of a whole response, leaving absent members out.
pub fn response_to_json(r: &JsonRpcResponse) -> (out: JsonValue)
    ensures
        out.deep() == response_jval(*r),
{
    let mut fields: Vec<(String, JsonValue)> = Vec::new();
    fields.push((String::from_str("jsonrpc"), JsonValue::Str(r.jsonrpc.clone())));
    if let Some(v) = &r.id {
        fields.push((String::from_str("id"), v.clone()));
    }
    if let Some(v) = &r.result {
        fields.push((String::from_str("result"), v.clone()));
    }
    if let Some(e) = &r.error {
        let ev = error_json(e);
        fields.push((String::from_str("error"), ev));
    }
    proof {
        lemma_deep_fields(fields, fields@.len() as int);
        assert(deep_fields(fields, fields@.len() as int) =~= response_jval(*r)->Object_0);
    }
    JsonValue::Object(fields)
}

/// Renders a whole response as the text frame the transport writes.
pub fn serialize_response(r: &JsonRpcResponse) -> (out: String)
    ensures
        out@ == render(response_jval(*r)),
{
    let v = response_to_json(r);
    render_json(&v)
}

} // verus!
