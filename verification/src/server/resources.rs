//! The resource registry: URI-identified, readable capabilities.

use vstd::prelude::*;
use vstd::string::StringExecFns;

use crate::json::JVal;
use crate::json::JsonValue;
use crate::json::clone_fields;
use crate::json::clone_strings;
use crate::json::deep_fields;
use crate::json::outcome_deep;

verus! {

/// What a registry does when a second capability arrives under a key that
/// is already taken.
pub enum DuplicateBehavior {
    Warn,
    Error,
    Replace,
    Ignore,
}

/// The wire-visible description of a resource: everything but the handler.
pub struct Resource {
    pub uri: String,
    pub name: String,
    pub description: Option<String>,
    pub mime_type: Option<String>,
    pub tags: Option<Vec<String>>,
    pub annotations: Option<Vec<(String, JsonValue)>>,
    pub meta: Option<Vec<(String, JsonValue)>>,
}

/// A resource body supplied by the user of the library.  The registry
/// stores it and reads through it; it never looks inside.
pub trait ResourceHandler {
    /// The outcome of reading this resource.
    spec fn read_spec(&self) -> Result<JVal, Seq<char>>;

    /// Reads the resource.
    fn read(&self) -> (r: Result<JsonValue, String>)
        ensures
            outcome_deep(r) == self.read_spec(),
    ;
}

/// Ready-made resource handlers for the common simple cases.  Each
/// variant states its outcome exactly.
pub enum BasicResource {
    /// Always answers with the held value.
    Static(JsonValue),
    /// Always fails with the held message.
    Failing(String),
}

impl ResourceHandler for BasicResource {
    open spec fn read_spec(&self) -> Result<JVal, Seq<char>> {
        match self {
            BasicResource::Static(v) => Ok(v.deep()),
            BasicResource::Failing(m) => Err(m@),
        }
    }

    fn read(&self) -> (r: Result<JsonValue, String>) {
        match self {
            BasicResource::Static(v) => Ok(v.clone()),
            BasicResource::Failing(m) => Err(m.clone()),
        }
    }
}

/// A URI-keyed resource: wire-visible metadata plus the stored handler.
pub struct FunctionResource<H> {
    pub function: H,
    pub uri: String,
    pub name: String,
    pub description: String,
    pub mime_type: String,
    pub tags: Vec<String>,
    pub annotations: Vec<(String, JsonValue)>,
    pub meta: Option<Vec<(String, JsonValue)>>,
}

impl<H: ResourceHandler> FunctionResource<H> {
    /// Builds a resource around a handler, filling absent metadata with
    /// the usual defaults.
    pub fn from_function(
        function: H,
        uri: String,
        name: Option<String>,
        description: Option<String>,
        mime_type: Option<String>,
        tags: Option<Vec<String>>,
        annotations: Option<Vec<(String, JsonValue)>>,
        meta: Option<Vec<(String, JsonValue)>>,
    ) -> (r: Self)
        ensures
            r.function == function,
            r.uri == uri,
            (match name {
                Some(n) => r.name == n,
                None => r.name@ == "unnamed_resource"@,
            }),
            (match description {
                Some(d) => r.description == d,
                None => r.description@ == Seq::<char>::empty(),
            }),
            (match mime_type {
                Some(m) => r.mime_type == m,
                None => r.mime_type@ == "text/plain"@,
            }),
            (match tags {
                Some(t) => r.tags == t,
                None => r.tags@ == Seq::<String>::empty(),
            }),
            (match annotations {
                Some(a) => r.annotations == a,
                None => r.annotations@ == Seq::<(String, JsonValue)>::empty(),
            }),
            r.meta == meta,
    {
        let resolved_name = match name {
            Some(n) => n,
            None => String::from_str("unnamed_resource"),
        };
        let resolved_description = match description {
            Some(d) => d,
            None => String::new(),
        };
        let resolved_mime_type = match mime_type {
            Some(m) => m,
            None => String::from_str("text/plain"),
        };
        let resolved_tags = match tags {
            Some(t) => t,
            None => Vec::new(),
        };
        let resolved_annotations = match annotations {
            Some(a) => a,
            None => Vec::new(),
        };
        FunctionResource {
            function,
            uri,
            name: resolved_name,
            description: resolved_description,
            mime_type: resolved_mime_type,
            tags: resolved_tags,
            annotations: resolved_annotations,
            meta,
        }
    }

    /// Reads through the stored handler.
    pub fn read(&self) -> (r: Result<JsonValue, String>)
        ensures
            outcome_deep(r) == self.function.read_spec(),
    {
        self.function.read()
    }
}

/// True when no two resources in `s` share a URI.
pub open spec fn wf_resources<H>(s: Seq<FunctionResource<H>>) -> bool {
    forall|i: int, j: int| 0 <= i < j < s.len() ==> s[i].uri@ != s[j].uri@
}

/// True when some resource in `s` has URI `uri`.
pub open spec fn has_resource<H>(s: Seq<FunctionResource<H>>, uri: Seq<char>) -> bool {
    exists|i: int| 0 <= i < s.len() && s[i].uri@ == uri
}

/// The index of the resource with URI `uri`; meaningful when
/// `has_resource` holds and URIs are unique.
pub open spec fn resource_at<H>(s: Seq<FunctionResource<H>>, uri: Seq<char>) -> int {
    choose|i: int| 0 <= i < s.len() && s[i].uri@ == uri
}

/// The wire-visible metadata of a stored resource: empty text fields and
/// empty collections are left out, as is the handler.
pub open spec fn resource_meta_jval<H>(r: FunctionResource<H>) -> JVal {
    JVal::Object(
        seq![("uri"@, JVal::Str(r.uri@)), ("name"@, JVal::Str(r.name@))] + (
        if r.description@.len() == 0 {
            Seq::empty()
        } else {
            seq![("description"@, JVal::Str(r.description@))]
        }) + (if r.mime_type@.len() == 0 {
            Seq::empty()
        } else {
            seq![("mimeType"@, JVal::Str(r.mime_type@))]
        }) + (if r.tags@.len() == 0 {
            Seq::empty()
        } else {
            seq![("tags"@, JVal::Array(Seq::new(r.tags@.len(), |i: int| JVal::Str(r.tags@[i]@))))]
        }) + (if r.annotations@.len() == 0 {
            Seq::empty()
        } else {
            seq![
                (
                    "annotations"@,
                    JVal::Object(deep_fields(r.annotations, r.annotations@.len() as int)),
                ),
            ]
        }) + (match r.meta {
            Some(m) => seq![("meta"@, JVal::Object(deep_fields(m, m@.len() as int)))],
            None => Seq::empty(),
        }),
    )
}

/// The wire view of a `Resource` value, with absent fields left out.
pub open spec fn resource_jval(v: Resource) -> JVal {
    JVal::Object(
        seq![("uri"@, JVal::Str(v.uri@)), ("name"@, JVal::Str(v.name@))] + (match v.description {
            Some(d) => seq![("description"@, JVal::Str(d@))],
            None => Seq::empty(),
        }) + (match v.mime_type {
            Some(m) => seq![("mimeType"@, JVal::Str(m@))],
            None => Seq::empty(),
        }) + (match v.tags {
            Some(t) => seq![("tags"@, JVal::Array(Seq::new(t@.len(), |i: int| JVal::Str(t@[i]@))))],
            None => Seq::empty(),
        }) + (match v.annotations {
            Some(a) => seq![("annotations"@, JVal::Object(deep_fields(a, a@.len() as int)))],
            None => Seq::empty(),
        }) + (match v.meta {
            Some(m) => seq![("meta"@, JVal::Object(deep_fields(m, m@.len() as int)))],
            None => Seq::empty(),
        }),
    )
}

/// True when `v` is the metadata projection of `r`: the same wire-visible
/// fields, with empty text and empty collections projected to absent.
pub open spec fn resource_view_of<H>(v: Resource, r: FunctionResource<H>) -> bool {
    &&& v.uri@ == r.uri@
    &&& v.name@ == r.name@
    &&& (match v.description {
        Some(d) => r.description@.len() > 0 && d@ == r.description@,
        None => r.description@.len() == 0,
    })
    &&& (match v.mime_type {
        Some(m) => r.mime_type@.len() > 0 && m@ == r.mime_type@,
        None => r.mime_type@.len() == 0,
    })
    &&& (match v.tags {
        Some(t) => r.tags@.len() > 0 && t@ == r.tags@,
        None => r.tags@.len() == 0,
    })
    &&& (match v.annotations {
        Some(a) => r.annotations@.len() > 0 && deep_fields(a, a@.len() as int) == deep_fields(
            r.annotations,
            r.annotations@.len() as int,
        ),
        None => r.annotations@.len() == 0,
    })
    &&& (match (v.meta, r.meta) {
        (Some(a), Some(b)) => deep_fields(a, a@.len() as int) == deep_fields(b, b@.len() as int),
        (None, None) => true,
        _ => false,
    })
}

/// A metadata projection carries exactly the wire view of its source.
pub proof fn lemma_resource_view_jval<H>(v: Resource, r: FunctionResource<H>)
    requires
        resource_view_of(v, r),
    ensures
        resource_jval(v) == resource_meta_jval(r),
{
}

/// What reading the resource with URI `uri` yields: the handler's outcome
/// when the resource exists, and the fixed error text otherwise.
pub open spec fn read_outcome<H: ResourceHandler>(
    s: Seq<FunctionResource<H>>,
    uri: Seq<char>,
) -> Result<JVal, Seq<char>> {
    if has_resource(s, uri) {
        s[resource_at(s, uri)].function.read_spec()
    } else {
        Err("Resource not found: "@ + uri)
    }
}

/// The registry of resources: a URI-keyed collection with unique URIs and
/// a fixed policy for colliding registrations.
pub struct ResourceManager<H> {
    resources: Vec<FunctionResource<H>>,
    duplicate_behavior: DuplicateBehavior,
}

impl<H: ResourceHandler> ResourceManager<H> {
    /// The stored resources, in registration order.
    pub closed spec fn spec_resources(&self) -> Seq<FunctionResource<H>> {
        self.resources@
    }

    /// The policy applied when a URI collides.
    pub closed spec fn behavior(&self) -> DuplicateBehavior {
        self.duplicate_behavior
    }

    /// The registry invariant: resource URIs are unique.
    pub open spec fn wf(&self) -> bool {
        wf_resources(self.spec_resources())
    }

    /// An empty registry that warns and replaces on collision.
    pub fn new() -> (m: Self)
        ensures
            m.spec_resources() == Seq::<FunctionResource<H>>::empty(),
            m.behavior() is Warn,
            m.wf(),
    {
        ResourceManager { resources: Vec::new(), duplicate_behavior: DuplicateBehavior::Warn }
    }

    /// An empty registry with the given collision policy.
    pub fn with_behavior(duplicate_behavior: DuplicateBehavior) -> (m: Self)
        ensures
            m.spec_resources() == Seq::<FunctionResource<H>>::empty(),
            m.behavior() == duplicate_behavior,
            m.wf(),
    {
        ResourceManager { resources: Vec::new(), duplicate_behavior }
    }

    /// The index of the first stored resource whose URI reads as `uri`.
    fn find_index(&self, uri: &String) -> (r: Option<usize>)
        ensures
            (match r {
                Some(i) => i < self.spec_resources().len() && self.spec_resources()[i as int].uri@
                    == uri@ && (forall|j: int|
                    0 <= j < i ==> self.spec_resources()[j].uri@ != uri@),
                None => !has_resource(self.spec_resources(), uri@),
            }),
    {
        let n = self.resources.len();
        let mut i: usize = 0;
        while i < n
            invariant
                i <= n,
                n == self.resources@.len(),
                forall|j: int| 0 <= j < i ==> self.resources@[j].uri@ != uri@,
            decreases n - i,
        {
            if self.resources[i].uri.eq(uri) {
                return Some(i);
            }
            i = i + 1;
        }
        None
    }

    /// Registers `resource` under its URI.  A fresh URI is always
    /// inserted; a colliding one is resolved by the registry's policy, and
    /// only the `Error` policy refuses the registration.
    pub fn add_resource(&mut self, resource: FunctionResource<H>) -> (r: Result<(), String>)
        requires
            old(self).wf(),
        ensures
            final(self).behavior() == old(self).behavior(),
            final(self).wf(),
            ({
                let s = old(self).spec_resources();
                let key = resource.uri@;
                if !has_resource(s, key) {
                    r is Ok && final(self).spec_resources() == s.push(resource)
                } else {
                    match old(self).behavior() {
                        DuplicateBehavior::Warn => r is Ok && final(self).spec_resources()
                            == s.update(resource_at(s, key), resource),
                        DuplicateBehavior::Replace => r is Ok && final(self).spec_resources()
                            == s.update(resource_at(s, key), resource),
                        DuplicateBehavior::Ignore => r is Ok && final(self).spec_resources() == s,
                        DuplicateBehavior::Error => (r matches Err(m) && m@ == "Resource '"@ + key
                            + "' already exists"@) && final(self).spec_resources() == s,
                    }
                }
            }),
    {
        let found = self.find_index(&resource.uri);
        match found {
            None => {
                self.resources.push(resource);
                Ok(())
            },
            Some(i) => {
                proof {
                    assert(self.spec_resources()[i as int].uri@ == resource.uri@);
                    assert(resource_at(self.spec_resources(), resource.uri@) == i) by {
                        let k = resource_at(self.spec_resources(), resource.uri@);
                        assert(self.spec_resources()[k].uri@ == resource.uri@);
                    }
                }
                match self.duplicate_behavior {
                    DuplicateBehavior::Warn => {
                        self.resources[i] = resource;
                        Ok(())
                    },
                    DuplicateBehavior::Replace => {
                        self.resources[i] = resource;
                        Ok(())
                    },
                    DuplicateBehavior::Ignore => Ok(()),
                    DuplicateBehavior::Error => {
                        let mut m = String::from_str("Resource '");
                        m.append(resource.uri.as_str());
                        m.append("' already exists");
                        Err(m)
                    },
                }
            },
        }
    }

    /// The metadata projections of every stored resource, in registration
    /// order.
    pub fn list_resources(&self) -> (r: Vec<Resource>)
        ensures
            r@.len() == self.spec_resources().len(),
            forall|i: int|
                0 <= i < r@.len() ==> resource_view_of(r@[i], self.spec_resources()[i]),
    {
        let n = self.resources.len();
        let mut out: Vec<Resource> = Vec::new();
        let mut i: usize = 0;
        while i < n
            invariant
                i <= n,
                n == self.resources@.len(),
                out@.len() == i,
                forall|j: int| 0 <= j < i ==> resource_view_of(out@[j], self.resources@[j]),
            decreases n - i,
        {
            let src = &self.resources[i];
            let description = if src.description.as_str().is_empty() {
                None
            } else {
                Some(src.description.clone())
            };
            let mime_type = if src.mime_type.as_str().is_empty() {
                None
            } else {
                Some(src.mime_type.clone())
            };
            let tags = if src.tags.len() == 0 {
                None
            } else {
                Some(clone_strings(&src.tags))
            };
            let annotations = if src.annotations.len() == 0 {
                None
            } else {
                Some(clone_fields(&src.annotations))
            };
            let meta = match &src.meta {
                Some(m) => Some(clone_fields(m)),
                None => None,
            };
            let view = Resource {
                uri: src.uri.clone(),
                name: src.name.clone(),
                description,
                mime_type,
                tags,
                annotations,
                meta,
            };
            out.push(view);
            i = i + 1;
        }
        out
    }

    /// Reads the resource with URI `uri`, or reports that none exists.
    pub fn read_resource(&self, uri: &str) -> (r: Result<JsonValue, String>)
        requires
            self.wf(),
        ensures
            outcome_deep(r) == read_outcome(self.spec_resources(), uri@),
    {
        let key = String::from_str(uri);
        let found = self.find_index(&key);
        match found {
            Some(i) => {
                proof {
                    assert(resource_at(self.spec_resources(), uri@) == i) by {
                        let k = resource_at(self.spec_resources(), uri@);
                        assert(self.spec_resources()[k].uri@ == uri@);
                    }
                }
                self.resources[i].read()
            },
            None => {
                let mut m = String::from_str("Resource not found: ");
                m.append(uri);
                Err(m)
            },
        }
    }
}

impl<H: ResourceHandler> Default for ResourceManager<H> {
    /// Same as `new`: empty, warning and replacing on collision.
    fn default() -> (m: Self)
        ensures
            m.spec_resources() == Seq::<FunctionResource<H>>::empty(),
            m.behavior() is Warn,
            m.wf(),
    {
        ResourceManager::new()
    }
}

/// Builds the wire value for one resource's metadata projection.
pub fn resource_json(v: &Resource) -> (out: JsonValue)
    ensures
        out.deep() == resource_jval(*v),
{
    let mut fields: Vec<(String, JsonValue)> = Vec::new();
    fields.push((String::from_str("uri"), JsonValue::Str(v.uri.clone())));
    fields.push((String::from_str("name"), JsonValue::Str(v.name.clone())));
    if let Some(d) = &v.description {
        fields.push((String::from_str("description"), JsonValue::Str(d.clone())));
    }
    if let Some(m) = &v.mime_type {
        fields.push((String::from_str("mimeType"), JsonValue::Str(m.clone())));
    }
    if let Some(t) = &v.tags {
        let n = t.len();
        let mut items: Vec<JsonValue> = Vec::new();
        let mut i: usize = 0;
        while i < n
            invariant
                i <= n,
                n == t@.len(),
                items@.len() == i,
                forall|j: int| 0 <= j < i ==> items@[j].deep() == JVal::Str(t@[j]@),
            decreases n - i,
        {
            items.push(JsonValue::Str(t[i].clone()));
            i = i + 1;
        }
        proof {
            crate::json::lemma_deep_elems(items, n as int);
            assert(crate::json::deep_elems(items, n as int) =~= Seq::new(
                t@.len(),
                |i: int| JVal::Str(t@[i]@),
            ));
        }
        fields.push((String::from_str("tags"), JsonValue::Array(items)));
    }
    if let Some(a) = &v.annotations {
        let copy = clone_fields(a);
        fields.push((String::from_str("annotations"), JsonValue::Object(copy)));
    }
    if let Some(m) = &v.meta {
        let copy = clone_fields(m);
        fields.push((String::from_str("meta"), JsonValue::Object(copy)));
    }
    proof {
        crate::json::lemma_deep_fields(fields, fields@.len() as int);
        assert(crate::json::deep_fields(fields, fields@.len() as int) =~= resource_jval(
            *v,
        )->Object_0);
    }
    JsonValue::Object(fields)
}

/// Registering a resource under a fresh URI leaves the registry well
/// formed, lookup under that URI finds exactly the registered resource,
/// and the wire listing contains its metadata view.
pub proof fn lemma_add_fresh_then_get<H: ResourceHandler>(
    s: Seq<FunctionResource<H>>,
    resource: FunctionResource<H>,
)
    requires
        wf_resources(s),
        !has_resource(s, resource.uri@),
    ensures
        wf_resources(s.push(resource)),
        has_resource(s.push(resource), resource.uri@),
        s.push(resource)[resource_at(s.push(resource), resource.uri@)] == resource,
        Seq::new(s.push(resource).len(), |i: int| resource_meta_jval(s.push(resource)[i]))[s.len() as int]
            == resource_meta_jval(resource),
{
    let s2 = s.push(resource);
    assert(s2[s.len() as int] == resource);
    let k = resource_at(s2, resource.uri@);
    assert(s2[k].uri@ == resource.uri@);
    assert(k == s.len() as int);
}

/// A colliding registration under a replacing policy makes the new
/// resource the one found under the key; the registry stays well formed.
pub proof fn lemma_replace_second_wins<H: ResourceHandler>(
    s: Seq<FunctionResource<H>>,
    resource: FunctionResource<H>,
)
    requires
        wf_resources(s),
        has_resource(s, resource.uri@),
    ensures
        wf_resources(s.update(resource_at(s, resource.uri@), resource)),
        has_resource(s.update(resource_at(s, resource.uri@), resource), resource.uri@),
        s.update(resource_at(s, resource.uri@), resource)[resource_at(
            s.update(resource_at(s, resource.uri@), resource),
            resource.uri@,
        )] == resource,
{
    let i = resource_at(s, resource.uri@);
    assert(s[i].uri@ == resource.uri@);
    let s2 = s.update(i, resource);
    assert(s2[i] == resource);
    let k = resource_at(s2, resource.uri@);
    assert(s2[k].uri@ == resource.uri@);
    assert(k == i);
}

/// The wire view of a resource is a function of its metadata fields
/// alone: two resources that differ only in their stored handler have the
/// same view, so a listing can never reveal a handler.
pub proof fn lemma_meta_ignores_handler<H: ResourceHandler>(
    a: FunctionResource<H>,
    b: FunctionResource<H>,
)
    requires
        a.uri == b.uri,
        a.name == b.name,
        a.description == b.description,
        a.mime_type == b.mime_type,
        a.tags == b.tags,
        a.annotations == b.annotations,
        a.meta == b.meta,
    ensures
        resource_meta_jval(a) == resource_meta_jval(b),
{
}

} // verus!
