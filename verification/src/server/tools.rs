//! The tool registry: named, invokable capabilities.

use vstd::prelude::*;
use vstd::string::StringExecFns;

use crate::json::JVal;
use crate::json::JsonValue;
use crate::json::args_deep;
use crate::json::find_field;
use crate::json::jobj_get;
use crate::json::lemma_deep_fields;
use crate::json::lemma_jobj_get_absent;
use crate::json::lemma_jobj_get_at;
use crate::json::outcome_deep;

verus! {

/// What a registry does when a second capability arrives under a key that
/// is already taken.
pub enum DuplicateBehavior {
    Warn,
    Error,
    Replace,
    Ignore,
}

/// Optional hints describing how a tool behaves.
pub struct ToolAnnotations {
    pub title: Option<String>,
    pub read_only_hint: Option<bool>,
    pub destructive_hint: Option<bool>,
    pub idempotent_hint: Option<bool>,
    pub open_world_hint: Option<bool>,
}

/// A tool body supplied by the user of the library.  The registry stores it
/// and invokes it; it never looks inside.  An implementation promises only
/// that its outcome is a function of the argument shape.
pub trait ToolHandler {
    /// The outcome of the handler on arguments of the given shape.
    spec fn call_spec(&self, args: Option<Seq<(Seq<char>, JVal)>>) -> Result<JVal, Seq<char>>;

    /// Runs the handler.
    fn call(&self, args: Option<Vec<(String, JsonValue)>>) -> (r: Result<JsonValue, String>)
        ensures
            outcome_deep(r) == self.call_spec(args_deep(args)),
    ;
}

/// Ready-made tool handlers for the common simple cases.  Each variant
/// states its outcome exactly, so a server built from them is described
/// end to end by the dispatcher's contract.
pub enum BasicTool {
    /// Always answers with the held value.
    Static(JsonValue),
    /// Always fails with the held message.
    Failing(String),
    /// Answers with the string argument under `key`, or with `fallback`
    /// when that argument is absent or not a string.
    Echo { key: String, fallback: String },
}

impl ToolHandler for BasicTool {
    open spec fn call_spec(&self, args: Option<Seq<(Seq<char>, JVal)>>) -> Result<
        JVal,
        Seq<char>,
    > {
        match self {
            BasicTool::Static(v) => Ok(v.deep()),
            BasicTool::Failing(m) => Err(m@),
            BasicTool::Echo { key, fallback } => Ok(
                JVal::Str(
                    match args {
                        Some(fields) => match jobj_get(fields, key@) {
                            Some(JVal::Str(s)) => s,
                            _ => fallback@,
                        },
                        None => fallback@,
                    },
                ),
            ),
        }
    }

    fn call(&self, args: Option<Vec<(String, JsonValue)>>) -> (r: Result<JsonValue, String>) {
        match self {
            BasicTool::Static(v) => Ok(v.clone()),
            BasicTool::Failing(m) => Err(m.clone()),
            BasicTool::Echo { key, fallback } => {
                match &args {
                    Some(fields) => {
                        let found = find_field(fields, key);
                        proof {
                            lemma_deep_fields(*fields, fields@.len() as int);
                        }
                        let ghost df = crate::json::deep_fields(*fields, fields@.len() as int);
                        match found {
                            Some(i) => {
                                proof {
                                    lemma_jobj_get_at(df, key@, i as int);
                                }
                                match &fields[i].1 {
                                    JsonValue::Str(s) => Ok(JsonValue::Str(s.clone())),
                                    _ => Ok(JsonValue::Str(fallback.clone())),
                                }
                            },
                            None => {
                                proof {
                                    lemma_jobj_get_absent(df, key@);
                                }
                                Ok(JsonValue::Str(fallback.clone()))
                            },
                        }
                    },
                    None => Ok(JsonValue::Str(fallback.clone())),
                }
            },
        }
    }
}

/// A named tool: wire-visible metadata plus the stored handler.  Only the
/// metadata ever crosses the wire; the handler is invoked and nothing else.
pub struct FunctionTool<H> {
    pub name: String,
    pub title: Option<String>,
    pub description: String,
    pub input_schema: Option<JsonValue>,
    pub output_schema: Option<JsonValue>,
    pub annotations: Option<ToolAnnotations>,
    pub tags: Option<Vec<String>>,
    pub meta: Option<JsonValue>,
    pub function: Option<H>,
}

impl<H: ToolHandler> FunctionTool<H> {
    /// The stored handler, if any.
    pub open spec fn handler(&self) -> Option<H> {
        self.function
    }

    /// Builds a tool around a handler, filling absent metadata with the
    /// usual defaults.
    pub fn from_function(
        function: H,
        name: Option<String>,
        title: Option<String>,
        description: Option<String>,
        input_schema: Option<JsonValue>,
        output_schema: Option<JsonValue>,
        annotations: Option<ToolAnnotations>,
        tags: Option<Vec<String>>,
        meta: Option<JsonValue>,
    ) -> (t: Self)
        ensures
            t.handler() == Some(function),
            (match name {
                Some(n) => t.name == n,
                None => t.name@ == "unnamed_tool"@,
            }),
            t.title == title,
            (match description {
                Some(d) => t.description == d,
                None => t.description@ == Seq::<char>::empty(),
            }),
            t.input_schema == input_schema,
            t.output_schema == output_schema,
            t.annotations == annotations,
            t.tags == tags,
            t.meta == meta,
    {
        let resolved_name = match name {
            Some(n) => n,
            None => String::from_str("unnamed_tool"),
        };
        let resolved_description = match description {
            Some(d) => d,
            None => String::new(),
        };
        FunctionTool {
            name: resolved_name,
            title,
            description: resolved_description,
            input_schema,
            output_schema,
            annotations,
            tags,
            meta,
            function: Some(function),
        }
    }

    /// Invokes the stored handler, or reports that none is stored.
    pub fn call(&self, args: Option<Vec<(String, JsonValue)>>) -> (r: Result<JsonValue, String>)
        ensures
            (match self.handler() {
                Some(h) => outcome_deep(r) == h.call_spec(args_deep(args)),
                None => r matches Err(m) && m@ == "Tool function not available"@,
            }),
    {
        match &self.function {
            Some(f) => f.call(args),
            None => Err(String::from_str("Tool function not available")),
        }
    }
}

impl Clone for ToolAnnotations {
    /// An equal copy.
    fn clone(&self) -> (res: Self)
        ensures
            res == *self,
    {
        ToolAnnotations {
            title: match &self.title {
                Some(s) => Some(s.clone()),
                None => None,
            },
            read_only_hint: self.read_only_hint,
            destructive_hint: self.destructive_hint,
            idempotent_hint: self.idempotent_hint,
            open_world_hint: self.open_world_hint,
        }
    }
}

impl<H: ToolHandler> Clone for FunctionTool<H> {
    /// A copy of the metadata without the handler: the copy lists and
    /// serializes exactly as the source does, but stores no handler.
    fn clone(&self) -> (res: Self)
        ensures
            res.name == self.name,
            res.title == self.title,
            res.description == self.description,
            (match (res.input_schema, self.input_schema) {
                (Some(a), Some(b)) => a.deep() == b.deep(),
                (None, None) => true,
                _ => false,
            }),
            (match (res.output_schema, self.output_schema) {
                (Some(a), Some(b)) => a.deep() == b.deep(),
                (None, None) => true,
                _ => false,
            }),
            res.annotations == self.annotations,
            (match (res.tags, self.tags) {
                (Some(a), Some(b)) => a@ == b@,
                (None, None) => true,
                _ => false,
            }),
            (match (res.meta, self.meta) {
                (Some(a), Some(b)) => a.deep() == b.deep(),
                (None, None) => true,
                _ => false,
            }),
            res.handler() is None,
            tool_meta_jval(res) == tool_meta_jval(*self),
    {
        let res = FunctionTool {
            name: self.name.clone(),
            title: match &self.title {
                Some(s) => Some(s.clone()),
                None => None,
            },
            description: self.description.clone(),
            input_schema: match &self.input_schema {
                Some(v) => Some(v.clone()),
                None => None,
            },
            output_schema: match &self.output_schema {
                Some(v) => Some(v.clone()),
                None => None,
            },
            annotations: match &self.annotations {
                Some(a) => Some(a.clone()),
                None => None,
            },
            tags: match &self.tags {
                Some(t) => Some(crate::json::clone_strings(t)),
                None => None,
            },
            meta: match &self.meta {
                Some(v) => Some(v.clone()),
                None => None,
            },
            function: None,
        };
        proof {
            assert(tool_meta_jval(res)->Object_0 =~= tool_meta_jval(*self)->Object_0);
        }
        res
    }
}

/// True when no two tools in `s` share a name.
pub open spec fn wf_tools<H>(s: Seq<FunctionTool<H>>) -> bool {
    forall|i: int, j: int| 0 <= i < j < s.len() ==> s[i].name@ != s[j].name@
}

/// True when some tool in `s` is named `name`.
pub open spec fn has_tool<H>(s: Seq<FunctionTool<H>>, name: Seq<char>) -> bool {
    exists|i: int| 0 <= i < s.len() && s[i].name@ == name
}

/// The index of the tool named `name`; meaningful when `has_tool` holds and
/// names are unique.
pub open spec fn tool_at<H>(s: Seq<FunctionTool<H>>, name: Seq<char>) -> int {
    choose|i: int| 0 <= i < s.len() && s[i].name@ == name
}

/// What invoking the tool named `name` on `args` yields: the handler's
/// outcome when the tool exists and holds a handler, and the fixed error
/// texts otherwise.
pub open spec fn call_outcome<H: ToolHandler>(
    s: Seq<FunctionTool<H>>,
    name: Seq<char>,
    args: Option<Seq<(Seq<char>, JVal)>>,
) -> Result<JVal, Seq<char>> {
    if has_tool(s, name) {
        match s[tool_at(s, name)].handler() {
            Some(h) => h.call_spec(args),
            None => Err("Tool function not available"@),
        }
    } else {
        Err("Tool '"@ + name + "' not found"@)
    }
}

/// The registry of tools: a keyed collection with unique names and a fixed
/// policy for colliding registrations.
pub struct ToolManager<H> {
    tools: Vec<FunctionTool<H>>,
    duplicate_behavior: DuplicateBehavior,
}

impl<H: ToolHandler> ToolManager<H> {
    /// The stored tools, in registration order.
    pub closed spec fn spec_tools(&self) -> Seq<FunctionTool<H>> {
        self.tools@
    }

    /// The policy applied when a name collides.
    pub closed spec fn behavior(&self) -> DuplicateBehavior {
        self.duplicate_behavior
    }

    /// The registry invariant: tool names are unique.
    pub open spec fn wf(&self) -> bool {
        wf_tools(self.spec_tools())
    }

    /// An empty registry that warns and replaces on collision.
    pub fn new() -> (m: Self)
        ensures
            m.spec_tools() == Seq::<FunctionTool<H>>::empty(),
            m.behavior() is Warn,
            m.wf(),
    {
        ToolManager { tools: Vec::new(), duplicate_behavior: DuplicateBehavior::Warn }
    }

    /// An empty registry with the given collision policy.
    pub fn with_behavior(duplicate_behavior: DuplicateBehavior) -> (m: Self)
        ensures
            m.spec_tools() == Seq::<FunctionTool<H>>::empty(),
            m.behavior() == duplicate_behavior,
            m.wf(),
    {
        ToolManager { tools: Vec::new(), duplicate_behavior }
    }

    /// The index of the first stored tool whose name reads as `name`.
    fn find_index(&self, name: &String) -> (r: Option<usize>)
        ensures
            (match r {
                Some(i) => i < self.spec_tools().len() && self.spec_tools()[i as int].name@
                    == name@ && (forall|j: int|
                    0 <= j < i ==> self.spec_tools()[j].name@ != name@),
                None => !has_tool(self.spec_tools(), name@),
            }),
    {
        let n = self.tools.len();
        let mut i: usize = 0;
        while i < n
            invariant
                i <= n,
                n == self.tools@.len(),
                forall|j: int| 0 <= j < i ==> self.tools@[j].name@ != name@,
            decreases n - i,
        {
            if self.tools[i].name.eq(name) {
                return Some(i);
            }
            i = i + 1;
        }
        None
    }

    /// Registers `tool` under its name.  A fresh name is always inserted;
    /// a colliding one is resolved by the registry's policy, and only the
    /// `Error` policy refuses the registration.
    pub fn add_tool(&mut self, tool: FunctionTool<H>) -> (r: Result<(), String>)
        requires
            old(self).wf(),
        ensures
            final(self).behavior() == old(self).behavior(),
            final(self).wf(),
            ({
                let s = old(self).spec_tools();
                let key = tool.name@;
                if !has_tool(s, key) {
                    r is Ok && final(self).spec_tools() == s.push(tool)
                } else {
                    match old(self).behavior() {
                        DuplicateBehavior::Warn => r is Ok && final(self).spec_tools() == s.update(
                            tool_at(s, key),
                            tool,
                        ),
                        DuplicateBehavior::Replace => r is Ok && final(self).spec_tools()
                            == s.update(tool_at(s, key), tool),
                        DuplicateBehavior::Ignore => r is Ok && final(self).spec_tools() == s,
                        DuplicateBehavior::Error => (r matches Err(m) && m@ == "Tool '"@
                            + key + "' already exists"@) && final(self).spec_tools() == s,
                    }
                }
            }),
    {
        let found = self.find_index(&tool.name);
        match found {
            None => {
                self.tools.push(tool);
                Ok(())
            },
            Some(i) => {
                proof {
                    assert(self.spec_tools()[i as int].name@ == tool.name@);
                    assert(tool_at(self.spec_tools(), tool.name@) == i) by {
                        let k = tool_at(self.spec_tools(), tool.name@);
                        assert(self.spec_tools()[k].name@ == tool.name@);
                    }
                }
                match self.duplicate_behavior {
                    DuplicateBehavior::Warn => {
                        self.tools[i] = tool;
                        Ok(())
                    },
                    DuplicateBehavior::Replace => {
                        self.tools[i] = tool;
                        Ok(())
                    },
                    DuplicateBehavior::Ignore => Ok(()),
                    DuplicateBehavior::Error => {
                        let mut m = String::from_str("Tool '");
                        m.append(tool.name.as_str());
                        m.append("' already exists");
                        Err(m)
                    },
                }
            },
        }
    }

    /// Looks a tool up by name.
    pub fn get_tool(&self, name: &str) -> (r: Option<&FunctionTool<H>>)
        requires
            self.wf(),
        ensures
            (match r {
                Some(t) => has_tool(self.spec_tools(), name@) && *t == self.spec_tools()[tool_at(
                    self.spec_tools(),
                    name@,
                )],
                None => !has_tool(self.spec_tools(), name@),
            }),
    {
        let key = String::from_str(name);
        let found = self.find_index(&key);
        match found {
            Some(i) => {
                proof {
                    assert(tool_at(self.spec_tools(), name@) == i) by {
                        let k = tool_at(self.spec_tools(), name@);
                        assert(self.spec_tools()[k].name@ == name@);
                    }
                }
                Some(&self.tools[i])
            },
            None => None,
        }
    }

    /// All stored tools, in registration order.
    pub fn list_tools(&self) -> (r: Vec<&FunctionTool<H>>)
        ensures
            r@.len() == self.spec_tools().len(),
            forall|i: int| 0 <= i < r@.len() ==> r@[i] == self.spec_tools()[i],
    {
        let n = self.tools.len();
        let mut out: Vec<&FunctionTool<H>> = Vec::new();
        let mut i: usize = 0;
        while i < n
            invariant
                i <= n,
                n == self.tools@.len(),
                out@.len() == i,
                forall|j: int| 0 <= j < i ==> out@[j] == self.tools@[j],
            decreases n - i,
        {
            out.push(&self.tools[i]);
            i = i + 1;
        }
        out
    }

    /// Invokes the tool named `name`, or reports that no such tool exists.
    pub fn call_tool(&self, name: &str, args: Option<Vec<(String, JsonValue)>>) -> (r: Result<
        JsonValue,
        String,
    >)
        requires
            self.wf(),
        ensures
            outcome_deep(r) == call_outcome(self.spec_tools(), name@, args_deep(args)),
    {
        match self.get_tool(name) {
            Some(t) => t.call(args),
            None => {
                let mut m = String::from_str("Tool '");
                m.append(name);
                m.append("' not found");
                Err(m)
            },
        }
    }
}

/// The wire view of a list of tags.
pub open spec fn tags_jval(tags: Vec<String>) -> JVal {
    JVal::Array(Seq::new(tags@.len(), |i: int| JVal::Str(tags@[i]@)))
}

/// The wire view of tool annotations: present hints only, in order.
pub open spec fn annotations_jval(a: ToolAnnotations) -> JVal {
    JVal::Object(
        (match a.title {
            Some(s) => seq![("title"@, JVal::Str(s@))],
            None => Seq::empty(),
        }) + (match a.read_only_hint {
            Some(b) => seq![("readOnlyHint"@, JVal::Bool(b))],
            None => Seq::empty(),
        }) + (match a.destructive_hint {
            Some(b) => seq![("destructiveHint"@, JVal::Bool(b))],
            None => Seq::empty(),
        }) + (match a.idempotent_hint {
            Some(b) => seq![("idempotentHint"@, JVal::Bool(b))],
            None => Seq::empty(),
        }) + (match a.open_world_hint {
            Some(b) => seq![("openWorldHint"@, JVal::Bool(b))],
            None => Seq::empty(),
        }),
    )
}

/// The wire view of one tool: every metadata field that is present, in
/// declaration order, and never the handler.
pub open spec fn tool_meta_jval<H>(t: FunctionTool<H>) -> JVal {
    JVal::Object(
        seq![("name"@, JVal::Str(t.name@))] + (match t.title {
            Some(s) => seq![("title"@, JVal::Str(s@))],
            None => Seq::empty(),
        }) + seq![("description"@, JVal::Str(t.description@))] + (match t.input_schema {
            Some(v) => seq![("inputSchema"@, v.deep())],
            None => Seq::empty(),
        }) + (match t.output_schema {
            Some(v) => seq![("outputSchema"@, v.deep())],
            None => Seq::empty(),
        }) + (match t.annotations {
            Some(a) => seq![("annotations"@, annotations_jval(a))],
            None => Seq::empty(),
        }) + (match t.tags {
            Some(ts) => seq![("tags"@, tags_jval(ts))],
            None => Seq::empty(),
        }) + (match t.meta {
            Some(v) => seq![("_meta"@, v.deep())],
            None => Seq::empty(),
        }),
    )
}

/// The wire view of a whole tool listing, in registration order.
pub open spec fn tools_list_jval<H>(s: Seq<FunctionTool<H>>) -> JVal {
    JVal::Array(Seq::new(s.len(), |i: int| tool_meta_jval(s[i])))
}

/// Builds the wire value for a list of tags.
pub fn tags_json(tags: &Vec<String>) -> (v: JsonValue)
    ensures
        v.deep() == tags_jval(*tags),
{
    let n = tags.len();
    let mut items: Vec<JsonValue> = Vec::new();
    let mut i: usize = 0;
    while i < n
        invariant
            i <= n,
            n == tags@.len(),
            items@.len() == i,
            forall|j: int| 0 <= j < i ==> items@[j].deep() == JVal::Str(tags@[j]@),
        decreases n - i,
    {
        items.push(JsonValue::Str(tags[i].clone()));
        i = i + 1;
    }
    proof {
        crate::json::lemma_deep_elems(items, n as int);
        assert(crate::json::deep_elems(items, n as int) =~= tags_jval(*tags)->Array_0);
    }
    JsonValue::Array(items)
}

/// Builds the wire value for tool annotations.
pub fn annotations_json(a: &ToolAnnotations) -> (v: JsonValue)
    ensures
        v.deep() == annotations_jval(*a),
{
    let mut fields: Vec<(String, JsonValue)> = Vec::new();
    if let Some(s) = &a.title {
        fields.push((String::from_str("title"), JsonValue::Str(s.clone())));
    }
    if let Some(b) = &a.read_only_hint {
        fields.push((String::from_str("readOnlyHint"), JsonValue::Bool(*b)));
    }
    if let Some(b) = &a.destructive_hint {
        fields.push((String::from_str("destructiveHint"), JsonValue::Bool(*b)));
    }
    if let Some(b) = &a.idempotent_hint {
        fields.push((String::from_str("idempotentHint"), JsonValue::Bool(*b)));
    }
    if let Some(b) = &a.open_world_hint {
        fields.push((String::from_str("openWorldHint"), JsonValue::Bool(*b)));
    }
    proof {
        crate::json::lemma_deep_fields(fields, fields@.len() as int);
        assert(crate::json::deep_fields(fields, fields@.len() as int) =~= annotations_jval(
            *a,
        )->Object_0);
    }
    JsonValue::Object(fields)
}

/// Builds the wire value for one tool's metadata.
#[verifier::rlimit(30)]
pub fn tool_meta_json<H: ToolHandler>(t: &FunctionTool<H>) -> (v: JsonValue)
    ensures
        v.deep() == tool_meta_jval(*t),
{
    let mut fields: Vec<(String, JsonValue)> = Vec::new();
    fields.push((String::from_str("name"), JsonValue::Str(t.name.clone())));
    if let Some(s) = &t.title {
        fields.push((String::from_str("title"), JsonValue::Str(s.clone())));
    }
    fields.push((String::from_str("description"), JsonValue::Str(t.description.clone())));
    if let Some(v) = &t.input_schema {
        fields.push((String::from_str("inputSchema"), v.clone()));
    }
    if let Some(v) = &t.output_schema {
        fields.push((String::from_str("outputSchema"), v.clone()));
    }
    if let Some(a) = &t.annotations {
        let av = annotations_json(a);
        fields.push((String::from_str("annotations"), av));
    }
    if let Some(ts) = &t.tags {
        let tv = tags_json(ts);
        fields.push((String::from_str("tags"), tv));
    }
    if let Some(v) = &t.meta {
        fields.push((String::from_str("_meta"), v.clone()));
    }
    proof {
        crate::json::lemma_deep_fields(fields, fields@.len() as int);
        assert(crate::json::deep_fields(fields, fields@.len() as int) =~= tool_meta_jval(
            *t,
        )->Object_0);
    }
    JsonValue::Object(fields)
}

/// Builds the wire value for a whole tool listing.
pub fn tools_list_json<H: ToolHandler>(tools: &Vec<&FunctionTool<H>>) -> (v: JsonValue)
    ensures
        v.deep() == JVal::Array(Seq::new(tools@.len(), |i: int| tool_meta_jval(*tools@[i]))),
{
    let n = tools.len();
    let mut items: Vec<JsonValue> = Vec::new();
    let mut i: usize = 0;
    while i < n
        invariant
            i <= n,
            n == tools@.len(),
            items@.len() == i,
            forall|j: int| 0 <= j < i ==> items@[j].deep() == tool_meta_jval(*tools@[j]),
        decreases n - i,
    {
        let m = tool_meta_json(tools[i]);
        items.push(m);
        i = i + 1;
    }
    proof {
        crate::json::lemma_deep_elems(items, n as int);
        assert(crate::json::deep_elems(items, n as int) =~= Seq::new(
            tools@.len(),
            |i: int| tool_meta_jval(*tools@[i]),
        ));
    }
    JsonValue::Array(items)
}

/// Registering a tool under a fresh name leaves the registry well formed,
/// lookup under that name finds exactly the registered tool, and the wire
/// listing contains its metadata view.
pub proof fn lemma_add_fresh_then_get<H: ToolHandler>(
    s: Seq<FunctionTool<H>>,
    tool: FunctionTool<H>,
)
    requires
        wf_tools(s),
        !has_tool(s, tool.name@),
    ensures
        wf_tools(s.push(tool)),
        has_tool(s.push(tool), tool.name@),
        s.push(tool)[tool_at(s.push(tool), tool.name@)] == tool,
        tools_list_jval(s.push(tool))->Array_0[s.len() as int] == tool_meta_jval(tool),
{
    let s2 = s.push(tool);
    assert(s2[s.len() as int] == tool);
    let k = tool_at(s2, tool.name@);
    assert(s2[k].name@ == tool.name@);
    assert(k == s.len() as int);
}

/// A colliding registration under a replacing policy makes the new tool
/// the one found under the key; the registry stays well formed.  (Under
/// `Ignore` and `Error` the registry is unchanged, so the earlier tool
/// survives; that is stated by `add_tool` itself.)
pub proof fn lemma_replace_second_wins<H: ToolHandler>(
    s: Seq<FunctionTool<H>>,
    tool: FunctionTool<H>,
)
    requires
        wf_tools(s),
        has_tool(s, tool.name@),
    ensures
        wf_tools(s.update(tool_at(s, tool.name@), tool)),
        has_tool(s.update(tool_at(s, tool.name@), tool), tool.name@),
        s.update(tool_at(s, tool.name@), tool)[tool_at(
            s.update(tool_at(s, tool.name@), tool),
            tool.name@,
        )] == tool,
{
    let i = tool_at(s, tool.name@);
    assert(s[i].name@ == tool.name@);
    let s2 = s.update(i, tool);
    assert(s2[i] == tool);
    let k = tool_at(s2, tool.name@);
    assert(s2[k].name@ == tool.name@);
    assert(k == i);
}

/// The wire view of a tool is a function of its metadata fields alone: two
/// tools that differ only in their stored handler have the same view, so a
/// listing can never reveal a handler.
pub proof fn lemma_meta_ignores_handler<H: ToolHandler>(a: FunctionTool<H>, b: FunctionTool<H>)
    requires
        a.name == b.name,
        a.title == b.title,
        a.description == b.description,
        a.input_schema == b.input_schema,
        a.output_schema == b.output_schema,
        a.annotations == b.annotations,
        a.tags == b.tags,
        a.meta == b.meta,
    ensures
        tool_meta_jval(a) == tool_meta_jval(b),
{
}

impl<H: ToolHandler> Default for ToolManager<H> {
    /// Same as `new`: empty, warning and replacing on collision.
    fn default() -> (m: Self)
        ensures
            m.spec_tools() == Seq::<FunctionTool<H>>::empty(),
            m.behavior() is Warn,
            m.wf(),
    {
        ToolManager::new()
    }
}

} // verus!
