//! Tool-call vocabulary: how a call reached a handler, its errors, its exposure,
//! and the schema of a tool as it is offered to a model.

use vstd::prelude::*;

verus! {

/// An error that a tool handler reports.
#[derive(Debug, PartialEq, Eq)]
pub enum FunctionCallError {
    /// The error is shown to the model, which may retry.
    RespondToModel(String),
}

/// The error text that a model sees, if any.
pub open spec fn model_error_text(e: FunctionCallError) -> Seq<char> {
    match e {
        FunctionCallError::RespondToModel(m) => m@,
    }
}

/// How a tool call reached its handler.
#[derive(Debug, PartialEq, Eq, Clone)]
pub enum ToolCallSource {
    /// A direct model call whose message argument arrived encrypted.
    Direct,
    /// A direct model call whose message argument arrived as plaintext.
    DirectPlaintextMessage,
    /// A call issued from a Code Mode cell.
    CodeMode { cell_id: String, runtime_tool_call_id: String },
}

/// How a handler reads the arguments of a direct model call.
#[derive(Debug, PartialEq, Eq, Clone, Copy, Structural)]
pub enum DirectToolCallSourcePolicy {
    /// Direct calls always carry encrypted arguments.
    Encrypted,
    /// Direct calls carry encrypted arguments when the model sent any, plaintext otherwise.
    EncryptedWithPlaintextFallback,
    /// Direct calls always carry plaintext arguments.
    Plaintext,
}

/// The source that `policy` assigns to a direct call, given whether the call
/// reported at least one encrypted argument.
pub open spec fn classify_source(
    policy: DirectToolCallSourcePolicy,
    has_encrypted_fields: bool,
) -> ToolCallSource {
    match policy {
        DirectToolCallSourcePolicy::Encrypted => ToolCallSource::Direct,
        DirectToolCallSourcePolicy::EncryptedWithPlaintextFallback => if has_encrypted_fields {
            ToolCallSource::Direct
        } else {
            ToolCallSource::DirectPlaintextMessage
        },
        DirectToolCallSourcePolicy::Plaintext => ToolCallSource::DirectPlaintextMessage,
    }
}

/// Whether a call reported at least one encrypted argument.
pub open spec fn reports_encrypted_fields(encrypted_fields: Option<&[String]>) -> bool {
    encrypted_fields matches Some(f) && f@.len() > 0
}

impl Default for DirectToolCallSourcePolicy {
    fn default() -> (r: Self)
        ensures
            r == DirectToolCallSourcePolicy::Encrypted,
    {
        DirectToolCallSourcePolicy::Encrypted
    }
}

impl DirectToolCallSourcePolicy {
    /// The source of a direct call, given the names of its encrypted arguments
    /// (`None` when the call reported none).
    pub fn classify(self, encrypted_fields: Option<&[String]>) -> (r: ToolCallSource)
        ensures
            r == classify_source(self, reports_encrypted_fields(encrypted_fields)),
    {
        match self {
            DirectToolCallSourcePolicy::Encrypted => ToolCallSource::Direct,
            DirectToolCallSourcePolicy::EncryptedWithPlaintextFallback => match encrypted_fields {
                Some(fields) => {
                    if fields.len() > 0 {
                        ToolCallSource::Direct
                    } else {
                        ToolCallSource::DirectPlaintextMessage
                    }
                },
                None => ToolCallSource::DirectPlaintextMessage,
            },
            DirectToolCallSourcePolicy::Plaintext => ToolCallSource::DirectPlaintextMessage,
        }
    }
}

/// Who may call a tool: the model and Code Mode, or the model alone.
#[derive(Debug, PartialEq, Eq, Clone, Copy, Structural)]
pub enum ToolExposure {
    Direct,
    DirectModelOnly,
}

/// The payload of a tool call.
#[derive(Debug, PartialEq, Eq, Clone)]
pub enum ToolPayload {
    Function { arguments: String },
    Custom { input: String },
}

/// The name under which a tool is registered.
#[derive(Debug, PartialEq, Eq)]
pub struct ToolName {
    pub namespace: Option<String>,
    pub name: String,
}

impl ToolName {
    pub fn plain(name: &str) -> (r: ToolName)
        ensures
            r.namespace is None,
            r.name@ == name@,
    {
        ToolName { namespace: None, name: String::from_str(name) }
    }

    pub fn namespaced(namespace: String, name: String) -> (r: ToolName)
        ensures
            r.namespace matches Some(n) && n@ == namespace@,
            r.name@ == name@,
    {
        ToolName { namespace: Some(namespace), name }
    }
}

/// The JSON schema of a tool argument.
#[derive(Debug, PartialEq)]
pub enum JsonSchema {
    String { description: Option<String>, encrypted: bool },
    Object {
        properties: SchemaProperties,
        required: Option<Vec<String>>,
        additional_properties: Option<bool>,
    },
}

/// A named property of an object schema.
#[derive(Debug, PartialEq)]
pub struct SchemaProperty {
    pub name: String,
    pub schema: JsonSchema,
}

/// The properties of an object schema, by name.
#[derive(Debug, PartialEq)]
pub struct SchemaProperties {
    pub entries: Vec<SchemaProperty>,
}

/// The schema stored under `name` in `entries`: the first entry with that name.
pub open spec fn property_lookup(entries: Seq<SchemaProperty>, name: Seq<char>) -> Option<JsonSchema>
    decreases entries.len(),
{
    if entries.len() == 0 {
        None
    } else if entries[0].name@ == name {
        Some(entries[0].schema)
    } else {
        property_lookup(entries.drop_first(), name)
    }
}

/// No two properties share a name.
pub open spec fn properties_unique(entries: Seq<SchemaProperty>) -> bool {
    forall|i: int, j: int|
        0 <= i < entries.len() && 0 <= j < entries.len() && i != j ==> #[trigger] entries[i].name@
            != #[trigger] entries[j].name@
}

/// A name that `property_lookup` finds belongs to some entry.
pub proof fn lemma_lookup_found_has_entry(entries: Seq<SchemaProperty>, name: Seq<char>)
    requires
        property_lookup(entries, name) is Some,
    ensures
        exists|i: int| 0 <= i < entries.len() && #[trigger] entries[i].name@ == name,
    decreases entries.len(),
{
    if entries[0].name@ != name {
        lemma_lookup_found_has_entry(entries.drop_first(), name);
        let i = choose|i: int| 0 <= i < entries.drop_first().len() && #[trigger] entries.drop_first()[i].name@ == name;
        assert(entries[i + 1] == entries.drop_first()[i]);
    }
}

/// Two entries under two different names found by lookup are all there is.
pub proof fn lemma_exactly_two_properties(entries: Seq<SchemaProperty>, a: Seq<char>, b: Seq<char>)
    requires
        entries.len() == 2,
        a != b,
        property_lookup(entries, a) is Some,
        property_lookup(entries, b) is Some,
    ensures
        forall|n: Seq<char>| property_lookup(entries, n) is Some ==> n == a || n == b,
        properties_unique(entries),
{
    lemma_lookup_found_has_entry(entries, a);
    lemma_lookup_found_has_entry(entries, b);
    assert((entries[0].name@ == a && entries[1].name@ == b) || (entries[0].name@ == b
        && entries[1].name@ == a));
    assert forall|n: Seq<char>| property_lookup(entries, n) is Some implies n == a || n == b by {
        lemma_lookup_found_has_entry(entries, n);
    }
}

proof fn lemma_lookup_at(entries: Seq<SchemaProperty>, name: Seq<char>, k: int)
    requires
        0 <= k < entries.len(),
        entries[k].name@ == name,
        forall|j: int| 0 <= j < k ==> entries[j].name@ != name,
    ensures
        property_lookup(entries, name) is Some,
    decreases k,
{
    if k > 0 {
        assert forall|j: int| 0 <= j < k - 1 implies entries.drop_first()[j].name@ != name by {
            assert(entries.drop_first()[j] == entries[j + 1]);
        }
        lemma_lookup_at(entries.drop_first(), name, k - 1);
    }
}

proof fn lemma_lookup_absent(entries: Seq<SchemaProperty>, name: Seq<char>)
    requires
        forall|j: int| 0 <= j < entries.len() ==> entries[j].name@ != name,
    ensures
        property_lookup(entries, name) is None,
    decreases entries.len(),
{
    if entries.len() > 0 {
        assert forall|j: int| 0 <= j < entries.len() - 1 implies entries.drop_first()[j].name@ != name by {
            assert(entries.drop_first()[j] == entries[j + 1]);
        }
        lemma_lookup_absent(entries.drop_first(), name);
    }
}

/// `schema` is a string schema with the given description and encryption flag.
pub open spec fn is_string_schema(schema: JsonSchema, description: Seq<char>, encrypted: bool) -> bool {
    schema matches JsonSchema::String { description: Some(d), encrypted: e } && d@ == description
        && e == encrypted
}

/// The names in `names`, as sequences of characters.
pub open spec fn name_views(names: Seq<String>) -> Seq<Seq<char>> {
    names.map_values(|n: String| n@)
}

proof fn lemma_lookup_after_update(entries: Seq<SchemaProperty>, k: int, p: SchemaProperty, other: Seq<char>)
    requires
        0 <= k < entries.len(),
        entries[k].name@ == p.name@,
        forall|j: int| 0 <= j < k ==> entries[j].name@ != p.name@,
    ensures
        property_lookup(entries.update(k, p), p.name@) == Some(p.schema),
        other != p.name@ ==> property_lookup(entries.update(k, p), other) == property_lookup(entries, other),
    decreases entries.len(),
{
    if k > 0 {
        assert(entries.update(k, p).drop_first() =~= entries.drop_first().update(k - 1, p));
        assert(entries[0].name@ != p.name@);
        lemma_lookup_after_update(entries.drop_first(), k - 1, p, other);
    } else {
        assert(entries.update(k, p).drop_first() =~= entries.drop_first());
        assert(entries.update(k, p)[0] == p);
    }
}

proof fn lemma_lookup_after_push(entries: Seq<SchemaProperty>, p: SchemaProperty, other: Seq<char>)
    requires
        forall|j: int| 0 <= j < entries.len() ==> entries[j].name@ != p.name@,
    ensures
        property_lookup(entries.push(p), p.name@) == Some(p.schema),
        other != p.name@ ==> property_lookup(entries.push(p), other) == property_lookup(entries, other),
    decreases entries.len(),
{
    if entries.len() > 0 {
        assert(entries.push(p).drop_first() =~= entries.drop_first().push(p));
        lemma_lookup_after_push(entries.drop_first(), p, other);
    } else {
        assert(entries.push(p).drop_first() =~= Seq::<SchemaProperty>::empty());
        assert(entries.push(p)[0] == p);
        assert(property_lookup(entries, other) == None::<JsonSchema>);
        assert(property_lookup(Seq::<SchemaProperty>::empty(), other) == None::<JsonSchema>);
    }
}

impl SchemaProperties {
    pub fn new() -> (r: SchemaProperties)
        ensures
            r.entries@.len() == 0,
            properties_unique(r.entries@),
    {
        SchemaProperties { entries: Vec::new() }
    }

    /// Stores `schema` under `name`, replacing what was stored there; a new name
    /// adds one entry, a known name adds none.
    pub fn insert(&mut self, name: String, schema: JsonSchema)
        ensures
            property_lookup(final(self).entries@, name@) == Some(schema),
            final(self).entries@.len() == old(self).entries@.len() + (if property_lookup(
                old(self).entries@,
                name@,
            ) is Some {
                0int
            } else {
                1int
            }),
            properties_unique(old(self).entries@) ==> properties_unique(final(self).entries@),
            forall|other: Seq<char>|
                other != name@ ==> property_lookup(final(self).entries@, other) == property_lookup(
                    old(self).entries@,
                    other,
                ),
    {
        let n = self.entries.len();
        let mut i: usize = 0;
        while i < n
            invariant
                n == self.entries@.len(),
                self.entries@ == old(self).entries@,
                0 <= i <= n,
                forall|j: int| 0 <= j < i ==> self.entries@[j].name@ != name@,
            decreases n - i,
        {
            if self.entries[i].name == name {
                let ghost before = self.entries@;
                let p = SchemaProperty { name, schema };
                proof {
                    assert forall|other: Seq<char>| other != p.name@ implies property_lookup(
                        before.update(i as int, p),
                        other,
                    ) == property_lookup(before, other) by {
                        lemma_lookup_after_update(before, i as int, p, other);
                    }
                    lemma_lookup_after_update(before, i as int, p, p.name@);
                    lemma_lookup_at(before, p.name@, i as int);
                    if properties_unique(before) {
                        assert forall|a: int, b: int|
                            0 <= a < before.len() && 0 <= b < before.len() && a != b implies #[trigger] before.update(i as int, p)[a].name@
                                != #[trigger] before.update(i as int, p)[b].name@ by {
                            if a != i && b != i {
                                assert(before[a].name@ != before[b].name@);
                            } else if a == i {
                                assert(before[i as int].name@ != before[b].name@);
                            } else {
                                assert(before[a].name@ != before[i as int].name@);
                            }
                        }
                    }
                }
                self.entries.set(i, p);
                return;
            }
            i += 1;
        }
        let ghost before = self.entries@;
        let p = SchemaProperty { name, schema };
        proof {
            assert forall|other: Seq<char>| other != p.name@ implies property_lookup(
                before.push(p),
                other,
            ) == property_lookup(before, other) by {
                lemma_lookup_after_push(before, p, other);
            }
            lemma_lookup_after_push(before, p, p.name@);
            lemma_lookup_absent(before, p.name@);
        }
        self.entries.push(p);
    }
}

impl JsonSchema {
    /// A string schema.
    pub fn string(description: Option<String>) -> (r: JsonSchema)
        ensures
            r matches JsonSchema::String { description: d, encrypted: e } && !e && d == description,
    {
        JsonSchema::String { description, encrypted: false }
    }

    /// This schema, marked as carrying an encrypted value.
    pub fn with_encrypted(self) -> (r: JsonSchema)
        ensures
            self matches JsonSchema::String { description: d, encrypted: _ } ==> r
                == (JsonSchema::String { description: d, encrypted: true }),
            !(self is String) ==> r == self,
    {
        match self {
            JsonSchema::String { description, encrypted: _ } => JsonSchema::String {
                description,
                encrypted: true,
            },
            other => other,
        }
    }

    /// An object schema.
    pub fn object(
        properties: SchemaProperties,
        required: Option<Vec<String>>,
        additional_properties: Option<bool>,
    ) -> (r: JsonSchema)
        ensures
            r == (JsonSchema::Object { properties, required, additional_properties }),
    {
        JsonSchema::Object { properties, required, additional_properties }
    }
}

/// A function tool offered to the model.
#[derive(Debug, PartialEq)]
pub struct ResponsesApiTool {
    pub name: String,
    pub description: String,
    pub strict: bool,
    pub defer_loading: Option<bool>,
    pub parameters: JsonSchema,
    pub output_schema: Option<JsonSchema>,
}

/// A tool inside a namespace.
#[derive(Debug, PartialEq)]
pub enum ResponsesApiNamespaceTool {
    Function(ResponsesApiTool),
}

/// A group of tools offered under one namespace.
#[derive(Debug, PartialEq)]
pub struct ResponsesApiNamespace {
    pub name: String,
    pub description: String,
    pub tools: Vec<ResponsesApiNamespaceTool>,
}

/// The specification of a tool as it is offered to the model.
#[derive(Debug, PartialEq)]
pub enum ToolSpec {
    Function(ResponsesApiTool),
    Namespace(ResponsesApiNamespace),
}

} // verus!
