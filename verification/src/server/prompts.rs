//! The prompt registry: named capabilities that produce role-tagged
//! message sequences.

use vstd::prelude::*;
use vstd::string::StringExecFns;

use crate::json::JVal;
use crate::json::JsonValue;
use crate::json::args_deep;
use crate::json::clone_fields;
use crate::json::clone_strings;
use crate::json::deep_fields;

verus! {

/// What a registry does when a second capability arrives under a key that
/// is already taken.
pub enum DuplicateBehavior {
    Warn,
    Error,
    Replace,
    Ignore,
}

/// One role-tagged message produced by a prompt.
#[derive(Debug)]
pub struct PromptMessage {
    pub role: String,
    pub content: String,
    pub name: Option<String>,
}

impl Clone for PromptMessage {
    /// An equal copy.
    fn clone(&self) -> (res: Self)
        ensures
            res == *self,
    {
        PromptMessage {
            role: self.role.clone(),
            content: self.content.clone(),
            name: match &self.name {
                Some(n) => Some(n.clone()),
                None => None,
            },
        }
    }
}

/// A copy of a message list; message copies are equal to their sources.
pub fn clone_messages(msgs: &Vec<PromptMessage>) -> (r: Vec<PromptMessage>)
    ensures
        r@ == msgs@,
{
    let n = msgs.len();
    let mut copy: Vec<PromptMessage> = Vec::new();
    let mut i: usize = 0;
    while i < n
        invariant
            i <= n,
            n == msgs@.len(),
            copy@.len() == i,
            forall|j: int| 0 <= j < i ==> copy@[j] == msgs@[j],
        decreases n - i,
    {
        copy.push(msgs[i].clone());
        i = i + 1;
    }
    proof {
        assert(copy@ =~= msgs@);
    }
    copy
}

/// The mathematical shape of one prompt message.
pub open spec fn msg_deep(m: PromptMessage) -> (Seq<char>, Seq<char>, Option<Seq<char>>) {
    (
        m.role@,
        m.content@,
        match m.name {
            Some(n) => Some(n@),
            None => None,
        },
    )
}

/// The mathematical shape of a message list.
pub open spec fn msgs_deep(v: Vec<PromptMessage>) -> Seq<
    (Seq<char>, Seq<char>, Option<Seq<char>>),
> {
    Seq::new(v@.len(), |i: int| msg_deep(v@[i]))
}

/// The mathematical shape of a prompt outcome: message shapes or an error
/// text.
pub open spec fn messages_deep(r: Result<Vec<PromptMessage>, String>) -> Result<
    Seq<(Seq<char>, Seq<char>, Option<Seq<char>>)>,
    Seq<char>,
> {
    match r {
        Ok(v) => Ok(msgs_deep(v)),
        Err(e) => Err(e@),
    }
}

/// A prompt body supplied by the user of the library.  The registry stores
/// it and invokes it; it never looks inside.
pub trait PromptHandler {
    /// The outcome of the handler on arguments of the given shape.
    spec fn get_spec(&self, args: Option<Seq<(Seq<char>, JVal)>>) -> Result<
        Seq<(Seq<char>, Seq<char>, Option<Seq<char>>)>,
        Seq<char>,
    >;

    /// Runs the handler.
    fn get(&self, args: Option<Vec<(String, JsonValue)>>) -> (r: Result<
        Vec<PromptMessage>,
        String,
    >)
        ensures
            messages_deep(r) == self.get_spec(args_deep(args)),
    ;
}

/// Ready-made prompt handlers for the common simple cases.  Each variant
/// states its outcome exactly.
pub enum BasicPrompt {
    /// Always answers with the held messages.
    Static(Vec<PromptMessage>),
    /// Always fails with the held message.
    Failing(String),
}

impl PromptHandler for BasicPrompt {
    open spec fn get_spec(&self, args: Option<Seq<(Seq<char>, JVal)>>) -> Result<
        Seq<(Seq<char>, Seq<char>, Option<Seq<char>>)>,
        Seq<char>,
    > {
        match self {
            BasicPrompt::Static(msgs) => Ok(msgs_deep(*msgs)),
            BasicPrompt::Failing(m) => Err(m@),
        }
    }

    fn get(&self, args: Option<Vec<(String, JsonValue)>>) -> (r: Result<
        Vec<PromptMessage>,
        String,
    >) {
        match self {
            BasicPrompt::Static(msgs) => Ok(clone_messages(msgs)),
            BasicPrompt::Failing(m) => Err(m.clone()),
        }
    }
}

/// The wire-visible description of a prompt: everything but the handler.
pub struct Prompt {
    pub name: String,
    pub description: Option<String>,
    pub tags: Option<Vec<String>>,
    pub annotations: Option<Vec<(String, JsonValue)>>,
    pub meta: Option<Vec<(String, JsonValue)>>,
}

/// A named prompt: wire-visible metadata plus the stored handler.
pub struct FunctionPrompt<H> {
    pub function: Option<H>,
    pub name: String,
    pub description: String,
    pub tags: Vec<String>,
    pub arguments: Option<Vec<(String, String)>>,
    pub meta: Option<JsonValue>,
}

impl<H: PromptHandler> FunctionPrompt<H> {
    /// The stored handler, if any.
    pub open spec fn handler(&self) -> Option<H> {
        self.function
    }

    /// Builds a prompt around a handler, filling absent metadata with the
    /// usual defaults.
    pub fn from_function(
        function: H,
        name: String,
        description: Option<String>,
        tags: Option<Vec<String>>,
        arguments: Option<Vec<(String, String)>>,
        meta: Option<JsonValue>,
    ) -> (p: Self)
        ensures
            p.handler() == Some(function),
            p.name == name,
            (match description {
                Some(d) => p.description == d,
                None => p.description@ == Seq::<char>::empty(),
            }),
            (match tags {
                Some(t) => p.tags == t,
                None => p.tags@ == Seq::<String>::empty(),
            }),
            p.arguments == arguments,
            p.meta == meta,
    {
        let resolved_description = match description {
            Some(d) => d,
            None => String::new(),
        };
        let resolved_tags = match tags {
            Some(t) => t,
            None => Vec::new(),
        };
        FunctionPrompt {
            function: Some(function),
            name,
            description: resolved_description,
            tags: resolved_tags,
            arguments,
            meta,
        }
    }

    /// Invokes the stored handler, or reports that none is stored.
    pub fn get(&self, arguments: Option<Vec<(String, JsonValue)>>) -> (r: Result<
        Vec<PromptMessage>,
        String,
    >)
        ensures
            (match self.handler() {
                Some(h) => messages_deep(r) == h.get_spec(args_deep(arguments)),
                None => r matches Err(m) && m@ == "Prompt function not available"@,
            }),
    {
        match &self.function {
            Some(f) => f.get(arguments),
            None => Err(String::from_str("Prompt function not available")),
        }
    }
}

/// True when no two prompts in `s` share a name.
pub open spec fn wf_prompts<H>(s: Seq<FunctionPrompt<H>>) -> bool {
    forall|i: int, j: int| 0 <= i < j < s.len() ==> s[i].name@ != s[j].name@
}

/// True when some prompt in `s` is named `name`.
pub open spec fn has_prompt<H>(s: Seq<FunctionPrompt<H>>, name: Seq<char>) -> bool {
    exists|i: int| 0 <= i < s.len() && s[i].name@ == name
}

/// The index of the prompt named `name`; meaningful when `has_prompt`
/// holds and names are unique.
pub open spec fn prompt_at<H>(s: Seq<FunctionPrompt<H>>, name: Seq<char>) -> int {
    choose|i: int| 0 <= i < s.len() && s[i].name@ == name
}

/// True when the stored metadata maps to a present wire `meta` object:
/// the field must hold a non-empty JSON object.
pub open spec fn prompt_meta_present(meta: Option<JsonValue>) -> bool {
    match meta {
        Some(v) => v is Object && v->Object_0@.len() > 0,
        None => false,
    }
}

/// The wire-visible metadata of a stored prompt: empty text and empty
/// collections are left out, annotations are never carried, and `meta`
/// appears only when it holds a non-empty object.
pub open spec fn prompt_meta_jval<H>(p: FunctionPrompt<H>) -> JVal {
    JVal::Object(
        seq![("name"@, JVal::Str(p.name@))] + (if p.description@.len() == 0 {
            Seq::empty()
        } else {
            seq![("description"@, JVal::Str(p.description@))]
        }) + (if p.tags@.len() == 0 {
            Seq::empty()
        } else {
            seq![("tags"@, JVal::Array(Seq::new(p.tags@.len(), |i: int| JVal::Str(p.tags@[i]@))))]
        }) + (if prompt_meta_present(p.meta) {
            seq![
                (
                    "meta"@,
                    JVal::Object(
                        deep_fields(p.meta->0->Object_0, p.meta->0->Object_0@.len() as int),
                    ),
                ),
            ]
        } else {
            Seq::empty()
        }),
    )
}

/// The wire view of a `Prompt` value, with absent fields left out.
pub open spec fn prompt_jval(v: Prompt) -> JVal {
    JVal::Object(
        seq![("name"@, JVal::Str(v.name@))] + (match v.description {
            Some(d) => seq![("description"@, JVal::Str(d@))],
            None => Seq::empty(),
        }) + (match v.tags {
            Some(t) => seq![("tags"@, JVal::Array(Seq::new(t@.len(), |i: int| JVal::Str(t@[i]@))))],
            None => Seq::empty(),
        }) + (match v.annotations {
            Some(a) => seq![("annotations"@, JVal::Object(deep_fields(a, a@.len() as int)))],
            None => Seq::empty(),
        }) + (match v.meta {
            Some(m) => seq![("meta"@, JVal::Object(deep_fields(m, m@.len() as int)))],
            None => Seq::empty(),
        }),
    )
}

/// True when `v` is the metadata projection of `p`.
pub open spec fn prompt_view_of<H>(v: Prompt, p: FunctionPrompt<H>) -> bool {
    &&& v.name@ == p.name@
    &&& (match v.description {
        Some(d) => p.description@.len() > 0 && d@ == p.description@,
        None => p.description@.len() == 0,
    })
    &&& (match v.tags {
        Some(t) => p.tags@.len() > 0 && t@ == p.tags@,
        None => p.tags@.len() == 0,
    })
    &&& v.annotations is None
    &&& (match v.meta {
        Some(m) => prompt_meta_present(p.meta) && deep_fields(m, m@.len() as int) == deep_fields(
            p.meta->0->Object_0,
            p.meta->0->Object_0@.len() as int,
        ),
        None => !prompt_meta_present(p.meta),
    })
}

/// A metadata projection carries exactly the wire view of its source.
pub proof fn lemma_prompt_view_jval<H>(v: Prompt, p: FunctionPrompt<H>)
    requires
        prompt_view_of(v, p),
    ensures
        prompt_jval(v) == prompt_meta_jval(p),
{
}

/// What invoking the prompt named `name` on `args` yields: the handler's
/// outcome when the prompt exists and holds a handler, and the fixed error
/// texts otherwise.
pub open spec fn get_outcome<H: PromptHandler>(
    s: Seq<FunctionPrompt<H>>,
    name: Seq<char>,
    args: Option<Seq<(Seq<char>, JVal)>>,
) -> Result<Seq<(Seq<char>, Seq<char>, Option<Seq<char>>)>, Seq<char>> {
    if has_prompt(s, name) {
        match s[prompt_at(s, name)].handler() {
            Some(h) => h.get_spec(args),
            None => Err("Prompt function not available"@),
        }
    } else {
        Err("Prompt not found: "@ + name)
    }
}

/// The registry of prompts: a keyed collection with unique names and a
/// fixed policy for colliding registrations.
pub struct PromptManager<H> {
    prompts: Vec<FunctionPrompt<H>>,
    duplicate_behavior: DuplicateBehavior,
}

impl<H: PromptHandler> PromptManager<H> {
    /// The stored prompts, in registration order.
    pub closed spec fn spec_prompts(&self) -> Seq<FunctionPrompt<H>> {
        self.prompts@
    }

    /// The policy applied when a name collides.
    pub closed spec fn behavior(&self) -> DuplicateBehavior {
        self.duplicate_behavior
    }

    /// The registry invariant: prompt names are unique.
    pub open spec fn wf(&self) -> bool {
        wf_prompts(self.spec_prompts())
    }

    /// An empty registry that warns and replaces on collision.
    pub fn new() -> (m: Self)
        ensures
            m.spec_prompts() == Seq::<FunctionPrompt<H>>::empty(),
            m.behavior() is Warn,
            m.wf(),
    {
        PromptManager { prompts: Vec::new(), duplicate_behavior: DuplicateBehavior::Warn }
    }

    /// An empty registry with the given collision policy.
    pub fn with_behavior(duplicate_behavior: DuplicateBehavior) -> (m: Self)
        ensures
            m.spec_prompts() == Seq::<FunctionPrompt<H>>::empty(),
            m.behavior() == duplicate_behavior,
            m.wf(),
    {
        PromptManager { prompts: Vec::new(), duplicate_behavior }
    }

    /// The index of the first stored prompt whose name reads as `name`.
    fn find_index(&self, name: &String) -> (r: Option<usize>)
        ensures
            (match r {
                Some(i) => i < self.spec_prompts().len() && self.spec_prompts()[i as int].name@
                    == name@ && (forall|j: int|
                    0 <= j < i ==> self.spec_prompts()[j].name@ != name@),
                None => !has_prompt(self.spec_prompts(), name@),
            }),
    {
        let n = self.prompts.len();
        let mut i: usize = 0;
        while i < n
            invariant
                i <= n,
                n == self.prompts@.len(),
                forall|j: int| 0 <= j < i ==> self.prompts@[j].name@ != name@,
            decreases n - i,
        {
            if self.prompts[i].name.eq(name) {
                return Some(i);
            }
            i = i + 1;
        }
        None
    }

    /// Registers `prompt` under its name.  A fresh name is always
    /// inserted; a colliding one is resolved by the registry's policy, and
    /// only the `Error` policy refuses the registration.
    pub fn add_prompt(&mut self, prompt: FunctionPrompt<H>) -> (r: Result<(), String>)
        requires
            old(self).wf(),
        ensures
            final(self).behavior() == old(self).behavior(),
            final(self).wf(),
            ({
                let s = old(self).spec_prompts();
                let key = prompt.name@;
                if !has_prompt(s, key) {
                    r is Ok && final(self).spec_prompts() == s.push(prompt)
                } else {
                    match old(self).behavior() {
                        DuplicateBehavior::Warn => r is Ok && final(self).spec_prompts()
                            == s.update(prompt_at(s, key), prompt),
                        DuplicateBehavior::Replace => r is Ok && final(self).spec_prompts()
                            == s.update(prompt_at(s, key), prompt),
                        DuplicateBehavior::Ignore => r is Ok && final(self).spec_prompts() == s,
                        DuplicateBehavior::Error => (r matches Err(m) && m@ == "Prompt '"@ + key
                            + "' already exists"@) && final(self).spec_prompts() == s,
                    }
                }
            }),
    {
        let found = self.find_index(&prompt.name);
        match found {
            None => {
                self.prompts.push(prompt);
                Ok(())
            },
            Some(i) => {
                proof {
                    assert(self.spec_prompts()[i as int].name@ == prompt.name@);
                    assert(prompt_at(self.spec_prompts(), prompt.name@) == i) by {
                        let k = prompt_at(self.spec_prompts(), prompt.name@);
                        assert(self.spec_prompts()[k].name@ == prompt.name@);
                    }
                }
                match self.duplicate_behavior {
                    DuplicateBehavior::Warn => {
                        self.prompts[i] = prompt;
                        Ok(())
                    },
                    DuplicateBehavior::Replace => {
                        self.prompts[i] = prompt;
                        Ok(())
                    },
                    DuplicateBehavior::Ignore => Ok(()),
                    DuplicateBehavior::Error => {
                        let mut m = String::from_str("Prompt '");
                        m.append(prompt.name.as_str());
                        m.append("' already exists");
                        Err(m)
                    },
                }
            },
        }
    }

    /// The metadata projections of every stored prompt, in registration
    /// order.
    pub fn list_prompts(&self) -> (r: Vec<Prompt>)
        ensures
            r@.len() == self.spec_prompts().len(),
            forall|i: int| 0 <= i < r@.len() ==> prompt_view_of(r@[i], self.spec_prompts()[i]),
    {
        let n = self.prompts.len();
        let mut out: Vec<Prompt> = Vec::new();
        let mut i: usize = 0;
        while i < n
            invariant
                i <= n,
                n == self.prompts@.len(),
                out@.len() == i,
                forall|j: int| 0 <= j < i ==> prompt_view_of(out@[j], self.prompts@[j]),
            decreases n - i,
        {
            let src = &self.prompts[i];
            let description = if src.description.as_str().is_empty() {
                None
            } else {
                Some(src.description.clone())
            };
            let tags = if src.tags.len() == 0 {
                None
            } else {
                Some(clone_strings(&src.tags))
            };
            let meta = match &src.meta {
                Some(JsonValue::Object(fields)) => {
                    if fields.len() > 0 {
                        Some(clone_fields(fields))
                    } else {
                        None
                    }
                },
                _ => None,
            };
            let view = Prompt {
                name: src.name.clone(),
                description,
                tags,
                annotations: None,
                meta,
            };
            out.push(view);
            i = i + 1;
        }
        out
    }

    /// The handler stored under `name`, if the prompt exists and holds
    /// one.
    pub fn get_prompt_function(&self, name: &str) -> (r: Option<&H>)
        requires
            self.wf(),
        ensures
            ({
                let s = self.spec_prompts();
                match r {
                    Some(h) => has_prompt(s, name@) && s[prompt_at(s, name@)].handler() == Some(*h),
                    None => !has_prompt(s, name@) || s[prompt_at(s, name@)].handler() is None,
                }
            }),
    {
        let key = String::from_str(name);
        let found = self.find_index(&key);
        match found {
            Some(i) => {
                proof {
                    assert(prompt_at(self.spec_prompts(), name@) == i) by {
                        let k = prompt_at(self.spec_prompts(), name@);
                        assert(self.spec_prompts()[k].name@ == name@);
                    }
                }
                match &self.prompts[i].function {
                    Some(h) => Some(h),
                    None => None,
                }
            },
            None => None,
        }
    }

    /// Invokes the prompt named `name`, or reports that no such prompt
    /// exists.
    pub fn get_prompt(&self, name: &str, arguments: Option<Vec<(String, JsonValue)>>) -> (r:
        Result<Vec<PromptMessage>, String>)
        requires
            self.wf(),
        ensures
            messages_deep(r) == get_outcome(self.spec_prompts(), name@, args_deep(arguments)),
    {
        let key = String::from_str(name);
        let found = self.find_index(&key);
        match found {
            Some(i) => {
                proof {
                    assert(prompt_at(self.spec_prompts(), name@) == i) by {
                        let k = prompt_at(self.spec_prompts(), name@);
                        assert(self.spec_prompts()[k].name@ == name@);
                    }
                }
                self.prompts[i].get(arguments)
            },
            None => {
                let mut m = String::from_str("Prompt not found: ");
                m.append(name);
                Err(m)
            },
        }
    }
}

impl<H: PromptHandler> Default for PromptManager<H> {
    /// Same as `new`: empty, warning and replacing on collision.
    fn default() -> (m: Self)
        ensures
            m.spec_prompts() == Seq::<FunctionPrompt<H>>::empty(),
            m.behavior() is Warn,
            m.wf(),
    {
        PromptManager::new()
    }
}

/// Builds the wire value for one prompt's metadata projection.
pub fn prompt_json(v: &Prompt) -> (out: JsonValue)
    ensures
        out.deep() == prompt_jval(*v),
{
    let mut fields: Vec<(String, JsonValue)> = Vec::new();
    fields.push((String::from_str("name"), JsonValue::Str(v.name.clone())));
    if let Some(d) = &v.description {
        fields.push((String::from_str("description"), JsonValue::Str(d.clone())));
    }
    if let Some(t) = &v.tags {
        let n = t.len();
        let mut items: Vec<JsonValue> = Vec::new();
        let mut i: usize = 0;
        while i < n
            invariant
                i <= n,
                n == t@.len(),
                items@.len() == i,
                forall|j: int| 0 <= j < i ==> items@[j].deep() == JVal::Str(t@[j]@),
            decreases n - i,
        {
            items.push(JsonValue::Str(t[i].clone()));
            i = i + 1;
        }
        proof {
            crate::json::lemma_deep_elems(items, n as int);
            assert(crate::json::deep_elems(items, n as int) =~= Seq::new(
                t@.len(),
                |i: int| JVal::Str(t@[i]@),
            ));
        }
        fields.push((String::from_str("tags"), JsonValue::Array(items)));
    }
    if let Some(a) = &v.annotations {
        let copy = clone_fields(a);
        fields.push((String::from_str("annotations"), JsonValue::Object(copy)));
    }
    if let Some(m) = &v.meta {
        let copy = clone_fields(m);
        fields.push((String::from_str("meta"), JsonValue::Object(copy)));
    }
    proof {
        crate::json::lemma_deep_fields(fields, fields@.len() as int);
        assert(crate::json::deep_fields(fields, fields@.len() as int) =~= prompt_jval(
            *v,
        )->Object_0);
    }
    JsonValue::Object(fields)
}

/// The wire view of one prompt message: role and content, and the name
/// only when present.
pub open spec fn msg_jval(m: (Seq<char>, Seq<char>, Option<Seq<char>>)) -> JVal {
    JVal::Object(
        seq![("role"@, JVal::Str(m.0)), ("content"@, JVal::Str(m.1))] + (match m.2 {
            Some(n) => seq![("name"@, JVal::Str(n))],
            None => Seq::empty(),
        }),
    )
}

/// The wire view of a message list.
pub open spec fn msgs_jval(s: Seq<(Seq<char>, Seq<char>, Option<Seq<char>>)>) -> JVal {
    JVal::Array(Seq::new(s.len(), |i: int| msg_jval(s[i])))
}

/// Builds the wire value for a list of prompt messages.
pub fn messages_json(msgs: &Vec<PromptMessage>) -> (out: JsonValue)
    ensures
        out.deep() == msgs_jval(msgs_deep(*msgs)),
{
    let n = msgs.len();
    let mut items: Vec<JsonValue> = Vec::new();
    let mut i: usize = 0;
    while i < n
        invariant
            i <= n,
            n == msgs@.len(),
            items@.len() == i,
            forall|j: int| 0 <= j < i ==> items@[j].deep() == msg_jval(msg_deep(msgs@[j])),
        decreases n - i,
    {
        let m = &msgs[i];
        let mut fields: Vec<(String, JsonValue)> = Vec::new();
        fields.push((String::from_str("role"), JsonValue::Str(m.role.clone())));
        fields.push((String::from_str("content"), JsonValue::Str(m.content.clone())));
        if let Some(nm) = &m.name {
            fields.push((String::from_str("name"), JsonValue::Str(nm.clone())));
        }
        proof {
            crate::json::lemma_deep_fields(fields, fields@.len() as int);
            assert(crate::json::deep_fields(fields, fields@.len() as int) =~= msg_jval(
                msg_deep(msgs@[i as int]),
            )->Object_0);
        }
        items.push(JsonValue::Object(fields));
        i = i + 1;
    }
    proof {
        crate::json::lemma_deep_elems(items, n as int);
        assert(crate::json::deep_elems(items, n as int) =~= msgs_jval(
            msgs_deep(*msgs),
        )->Array_0);
    }
    JsonValue::Array(items)
}

/// Registering a prompt under a fresh name leaves the registry well
/// formed and lookup under that name finds exactly the registered prompt.
pub proof fn lemma_add_fresh_then_get<H: PromptHandler>(
    s: Seq<FunctionPrompt<H>>,
    prompt: FunctionPrompt<H>,
)
    requires
        wf_prompts(s),
        !has_prompt(s, prompt.name@),
    ensures
        wf_prompts(s.push(prompt)),
        has_prompt(s.push(prompt), prompt.name@),
        s.push(prompt)[prompt_at(s.push(prompt), prompt.name@)] == prompt,
        Seq::new(s.push(prompt).len(), |i: int| prompt_meta_jval(s.push(prompt)[i]))[s.len() as int]
            == prompt_meta_jval(prompt),
{
    let s2 = s.push(prompt);
    assert(s2[s.len() as int] == prompt);
    let k = prompt_at(s2, prompt.name@);
    assert(s2[k].name@ == prompt.name@);
    assert(k == s.len() as int);
}

/// A colliding registration under a replacing policy makes the new prompt
/// the one found under the key; the registry stays well formed.
pub proof fn lemma_replace_second_wins<H: PromptHandler>(
    s: Seq<FunctionPrompt<H>>,
    prompt: FunctionPrompt<H>,
)
    requires
        wf_prompts(s),
        has_prompt(s, prompt.name@),
    ensures
        wf_prompts(s.update(prompt_at(s, prompt.name@), prompt)),
        has_prompt(s.update(prompt_at(s, prompt.name@), prompt), prompt.name@),
        s.update(prompt_at(s, prompt.name@), prompt)[prompt_at(
            s.update(prompt_at(s, prompt.name@), prompt),
            prompt.name@,
        )] == prompt,
{
    let i = prompt_at(s, prompt.name@);
    assert(s[i].name@ == prompt.name@);
    let s2 = s.update(i, prompt);
    assert(s2[i] == prompt);
    let k = prompt_at(s2, prompt.name@);
    assert(s2[k].name@ == prompt.name@);
    assert(k == i);
}

/// The wire view of a prompt is a function of its metadata fields alone:
/// two prompts that differ only in their stored handler have the same
/// view, so a listing can never reveal a handler.
pub proof fn lemma_meta_ignores_handler<H: PromptHandler>(
    a: FunctionPrompt<H>,
    b: FunctionPrompt<H>,
)
    requires
        a.name == b.name,
        a.description == b.description,
        a.tags == b.tags,
        a.arguments == b.arguments,
        a.meta == b.meta,
    ensures
        prompt_meta_jval(a) == prompt_meta_jval(b),
{
}

} // verus!
