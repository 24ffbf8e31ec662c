//! Message routes between agents: which transport a route uses, what it accepts,
//! and the tool schemas through which a model sends messages.

use vstd::prelude::*;

use crate::protocol::{
    child_agent_path, render_inter_agent_message, root_agent_path, AgentPath,
    CommunicationView, InterAgentCommunication, InterAgentMessage, InterAgentMessageType,
};
use crate::text::{decimal_digits, decimal_string, is_blank, trim_chars, trim_str, utf8_len,
    lemma_trim_empty_iff_blank};
use crate::tool_context::{
    SchemaProperty, is_string_schema, properties_unique, lemma_exactly_two_properties, model_error_text, name_views, property_lookup, DirectToolCallSourcePolicy,
    FunctionCallError, JsonSchema, ResponsesApiTool, SchemaProperties, ToolCallSource,
    ToolExposure, ToolSpec,
};

verus! {

broadcast use vstd::slice::group_slice_axioms;

/// The largest plaintext agent message, in UTF-8 bytes, envelope included. It keeps a
/// rendered inter-agent item below a 10K-token cap even for text that tokenizes at
/// close to one token per byte.
pub const MAX_PLAINTEXT_AGENT_MESSAGE_BYTES: usize = 8192;

/// How messages travel between agents.
#[derive(Debug, Clone, Copy, PartialEq, Eq, Structural)]
pub enum AgentMessageRoute {
    /// OpenAI-to-OpenAI collaboration; direct messages stay encrypted.
    Native,
    /// Collaboration tools of an agent that uses a non-OpenAI provider; plaintext.
    ProviderPlaintext,
    /// The separate tool surface through which an OpenAI agent reaches agents of
    /// configured non-OpenAI providers; plaintext.
    ExternalPlaintext,
}

impl Default for AgentMessageRoute {
    fn default() -> (r: Self)
        ensures
            r == AgentMessageRoute::Native,
    {
        AgentMessageRoute::Native
    }
}

/// The source policy of each route.
pub open spec fn route_source_policy(route: AgentMessageRoute) -> DirectToolCallSourcePolicy {
    match route {
        AgentMessageRoute::Native => DirectToolCallSourcePolicy::EncryptedWithPlaintextFallback,
        _ => DirectToolCallSourcePolicy::Plaintext,
    }
}

/// The trimmed role name of a spawn request, when it is not empty.
pub open spec fn spawn_role_name(agent_type: Option<&str>) -> Option<Seq<char>> {
    match agent_type {
        Some(t) => if trim_chars(t@).len() > 0 {
            Some(trim_chars(t@))
        } else {
            None
        },
        None => None,
    }
}

pub open spec fn missing_agent_type_error() -> Seq<char> {
    "External agent spawning requires a non-empty agent_type"@
}

pub open spec fn spawn_override_error() -> Seq<char> {
    "External agent spawning uses the selected role's configured model and reasoning effort; omit model and reasoning_effort"@
}

pub open spec fn empty_message_error() -> Seq<char> {
    "Empty message can't be sent to an agent"@
}

/// A size-limit error: `prefix`, the limit in decimal, and the unit.
pub open spec fn size_limit_error(prefix: Seq<char>) -> Seq<char> {
    prefix + decimal_digits(MAX_PLAINTEXT_AGENT_MESSAGE_BYTES as nat) + " UTF-8 bytes"@
}

pub open spec fn message_too_large_error() -> Seq<char> {
    size_limit_error("Agent messages can't exceed "@)
}

pub open spec fn rendered_message_too_large_error() -> Seq<char> {
    size_limit_error("Rendered agent messages can't exceed "@)
}

pub open spec fn native_to_external_error() -> Seq<char> {
    "The selected agent uses a non-OpenAI model provider; retry with the corresponding `external_agents` collaboration tool."@
}

pub open spec fn external_to_openai_error() -> Seq<char> {
    "The selected agent uses the OpenAI model provider; retry with the standard collaboration tool."@
}

pub open spec fn native_code_mode_error() -> Seq<char> {
    "OpenAI collaboration messages require a direct encrypted tool call; retry with the standard collaboration tool outside Code Mode."@
}

/// The outcome of `validate_spawn_selection`, as text.
pub open spec fn spawn_selection_outcome(
    route: AgentMessageRoute,
    agent_type: Option<&str>,
    has_model_override: bool,
    has_reasoning_effort_override: bool,
) -> Result<Option<Seq<char>>, Seq<char>> {
    if route == AgentMessageRoute::ExternalPlaintext && spawn_role_name(agent_type) is None {
        Err(missing_agent_type_error())
    } else if route == AgentMessageRoute::ExternalPlaintext && (has_model_override
        || has_reasoning_effort_override) {
        Err(spawn_override_error())
    } else {
        Ok(spawn_role_name(agent_type))
    }
}

/// The outcome of `validate_message`.
pub open spec fn message_validation(route: AgentMessageRoute, message: Seq<char>) -> Result<(), Seq<char>> {
    if is_blank(message) {
        Err(empty_message_error())
    } else if route != AgentMessageRoute::Native && utf8_len(message)
        > MAX_PLAINTEXT_AGENT_MESSAGE_BYTES {
        Err(message_too_large_error())
    } else {
        Ok(())
    }
}

/// The outcome of `validate_recipient_provider`: the native route reaches OpenAI
/// agents only, the external route non-OpenAI agents only.
pub open spec fn recipient_provider_check(route: AgentMessageRoute, provider_is_openai: bool) -> Result<(), Seq<char>> {
    match route {
        AgentMessageRoute::Native => if provider_is_openai {
            Ok(())
        } else {
            Err(native_to_external_error())
        },
        AgentMessageRoute::ProviderPlaintext => Ok(()),
        AgentMessageRoute::ExternalPlaintext => if provider_is_openai {
            Err(external_to_openai_error())
        } else {
            Ok(())
        },
    }
}

/// A plaintext communication: the message inside its envelope, no encrypted payload.
pub open spec fn plaintext_communication_view(
    author: Seq<char>,
    recipient: Seq<char>,
    message: Seq<char>,
    trigger_turn: bool,
) -> CommunicationView {
    let kind = if trigger_turn {
        InterAgentMessageType::NewTask
    } else {
        InterAgentMessageType::Message
    };
    CommunicationView {
        author,
        recipient,
        other_recipients: Seq::empty(),
        content: render_inter_agent_message(kind, recipient, author, message),
        encrypted_content: None,
        trigger_turn,
    }
}

/// The outcome of `into_communication`.
pub open spec fn communication_outcome(
    route: AgentMessageRoute,
    source: ToolCallSource,
    recipient_is_openai: bool,
    author: Seq<char>,
    recipient: Seq<char>,
    message: Seq<char>,
    trigger_turn: bool,
) -> Result<CommunicationView, Seq<char>> {
    if let Err(e) = message_validation(route, message) {
        Err(e)
    } else if let Err(e) = recipient_provider_check(route, recipient_is_openai) {
        Err(e)
    } else if route == AgentMessageRoute::Native {
        match source {
            ToolCallSource::Direct => Ok(
                CommunicationView {
                    author,
                    recipient,
                    other_recipients: Seq::empty(),
                    content: Seq::empty(),
                    encrypted_content: Some(message),
                    trigger_turn,
                },
            ),
            ToolCallSource::DirectPlaintextMessage => Ok(
                plaintext_communication_view(author, recipient, message, trigger_turn),
            ),
            ToolCallSource::CodeMode { .. } => Err(native_code_mode_error()),
        }
    } else {
        let c = plaintext_communication_view(author, recipient, message, trigger_turn);
        if utf8_len(c.content) > MAX_PLAINTEXT_AGENT_MESSAGE_BYTES {
            Err(rendered_message_too_large_error())
        } else {
            Ok(c)
        }
    }
}

/// A result, with its error as the text that the model sees.
pub open spec fn error_text_result<T>(r: Result<T, FunctionCallError>) -> Result<T, Seq<char>> {
    match r {
        Ok(v) => Ok(v),
        Err(e) => Err(model_error_text(e)),
    }
}

/// A communication result, as views.
pub open spec fn communication_result_view(r: Result<InterAgentCommunication, FunctionCallError>) -> Result<CommunicationView, Seq<char>> {
    match r {
        Ok(c) => Ok(c@),
        Err(e) => Err(model_error_text(e)),
    }
}

fn limit_error(prefix: &str) -> (r: String)
    ensures
        r@ == size_limit_error(prefix@),
{
    let mut s = String::from_str(prefix);
    let limit = decimal_string(MAX_PLAINTEXT_AGENT_MESSAGE_BYTES);
    s.append(limit.as_str());
    s.append(" UTF-8 bytes");
    s
}

impl AgentMessageRoute {
    /// Who may call this route's messaging tools: the native route refuses Code Mode,
    /// which cannot produce the encrypted arguments that native messaging needs.
    pub fn messaging_tool_exposure(self, configured: ToolExposure) -> (r: ToolExposure)
        ensures
            r == (if self == AgentMessageRoute::Native {
                ToolExposure::DirectModelOnly
            } else {
                configured
            }),
    {
        match self {
            AgentMessageRoute::Native => ToolExposure::DirectModelOnly,
            AgentMessageRoute::ProviderPlaintext | AgentMessageRoute::ExternalPlaintext => configured,
        }
    }

    /// How the handlers of this route read direct calls.
    pub fn direct_tool_call_source_policy(self) -> (r: DirectToolCallSourcePolicy)
        ensures
            r == route_source_policy(self),
    {
        match self {
            AgentMessageRoute::ProviderPlaintext | AgentMessageRoute::ExternalPlaintext => {
                DirectToolCallSourcePolicy::Plaintext
            },
            AgentMessageRoute::Native => DirectToolCallSourcePolicy::EncryptedWithPlaintextFallback,
        }
    }

    /// Spawning through the external route must name a role.
    pub fn requires_explicit_agent_type(self) -> (r: bool)
        ensures
            r == (self == AgentMessageRoute::ExternalPlaintext),
    {
        self == AgentMessageRoute::ExternalPlaintext
    }

    /// Spawning through the external route takes model and effort from the role.
    pub fn accepts_spawn_model_overrides(self) -> (r: bool)
        ensures
            r == (self != AgentMessageRoute::ExternalPlaintext),
    {
        self != AgentMessageRoute::ExternalPlaintext
    }

    /// Checks the role and overrides of a spawn request; returns the trimmed role name.
    pub fn validate_spawn_selection<'a>(
        self,
        agent_type: Option<&'a str>,
        has_model_override: bool,
        has_reasoning_effort_override: bool,
    ) -> (r: Result<Option<&'a str>, FunctionCallError>)
        ensures
            (match r {
                Ok(Some(n)) => Ok(Some(n@)),
                Ok(None) => Ok(None),
                Err(e) => Err(model_error_text(e)),
            }) == spawn_selection_outcome(
                self,
                agent_type,
                has_model_override,
                has_reasoning_effort_override,
            ),
    {
        let role_name = match agent_type {
            Some(t) => {
                let trimmed = trim_str(t);
                if trimmed.is_empty() {
                    None
                } else {
                    Some(trimmed)
                }
            },
            None => None,
        };
        if self.requires_explicit_agent_type() && role_name.is_none() {
            return Err(
                FunctionCallError::RespondToModel(
                    String::from_str("External agent spawning requires a non-empty agent_type"),
                ),
            );
        }
        if !self.accepts_spawn_model_overrides() && (has_model_override
            || has_reasoning_effort_override) {
            return Err(
                FunctionCallError::RespondToModel(
                    String::from_str(
                        "External agent spawning uses the selected role's configured model and reasoning effort; omit model and reasoning_effort",
                    ),
                ),
            );
        }
        Ok(role_name)
    }

    /// Refuses blank messages, and plaintext messages above the size limit.
    pub fn validate_message(self, message: &str) -> (r: Result<(), FunctionCallError>)
        ensures
            error_text_result(r) == message_validation(self, message@),
    {
        let trimmed = trim_str(message);
        proof {
            lemma_trim_empty_iff_blank(message@);
        }
        if trimmed.is_empty() {
            return Err(
                FunctionCallError::RespondToModel(
                    String::from_str("Empty message can't be sent to an agent"),
                ),
            );
        }
        if self != AgentMessageRoute::Native && message.as_bytes().len() > MAX_PLAINTEXT_AGENT_MESSAGE_BYTES {
            return Err(FunctionCallError::RespondToModel(limit_error("Agent messages can't exceed ")));
        }
        Ok(())
    }

    /// Checks that the recipient's provider matches the route.
    pub fn validate_recipient_provider(self, provider_is_openai: bool) -> (r: Result<
        (),
        FunctionCallError,
    >)
        ensures
            error_text_result(r) == recipient_provider_check(self, provider_is_openai),
    {
        match (self, provider_is_openai) {
            (AgentMessageRoute::Native, true)
            | (AgentMessageRoute::ProviderPlaintext, _)
            | (AgentMessageRoute::ExternalPlaintext, false) => Ok(()),
            (AgentMessageRoute::Native, false) => Err(
                FunctionCallError::RespondToModel(
                    String::from_str(
                        "The selected agent uses a non-OpenAI model provider; retry with the corresponding `external_agents` collaboration tool.",
                    ),
                ),
            ),
            (AgentMessageRoute::ExternalPlaintext, true) => Err(
                FunctionCallError::RespondToModel(
                    String::from_str(
                        "The selected agent uses the OpenAI model provider; retry with the standard collaboration tool.",
                    ),
                ),
            ),
        }
    }

    /// Builds the communication that carries `message` from `author` to `recipient`.
    pub fn into_communication(
        self,
        source: &ToolCallSource,
        recipient_is_openai: bool,
        author: AgentPath,
        recipient: AgentPath,
        message: String,
        trigger_turn: bool,
    ) -> (r: Result<InterAgentCommunication, FunctionCallError>)
        ensures
            communication_result_view(r) == communication_outcome(
                self,
                *source,
                recipient_is_openai,
                author@,
                recipient@,
                message@,
                trigger_turn,
            ),
    {
        let checked = self.validate_message(message.as_str());
        if let Err(e) = checked {
            return Err(e);
        }
        let provider_checked = self.validate_recipient_provider(recipient_is_openai);
        if let Err(e) = provider_checked {
            return Err(e);
        }
        match (self, source) {
            (AgentMessageRoute::Native, ToolCallSource::Direct) => {
                let c = InterAgentCommunication::new_encrypted(
                    author,
                    recipient,
                    Vec::new(),
                    message,
                    trigger_turn,
                );
                proof {
                    assert(c@.other_recipients =~= Seq::<Seq<char>>::empty());
                }
                Ok(c)
            },
            (AgentMessageRoute::Native, ToolCallSource::DirectPlaintextMessage) => {
                Ok(plaintext_communication(author, recipient, message, trigger_turn))
            },
            (AgentMessageRoute::Native, ToolCallSource::CodeMode { .. }) => {
                Err(
                    FunctionCallError::RespondToModel(
                        String::from_str(
                            "OpenAI collaboration messages require a direct encrypted tool call; retry with the standard collaboration tool outside Code Mode.",
                        ),
                    ),
                )
            },
            (
                AgentMessageRoute::ProviderPlaintext | AgentMessageRoute::ExternalPlaintext,
                ToolCallSource::Direct
                | ToolCallSource::DirectPlaintextMessage
                | ToolCallSource::CodeMode { .. },
            ) => {
                let communication = plaintext_communication(
                    author,
                    recipient,
                    message,
                    trigger_turn,
                );
                if communication.content.as_str().as_bytes().len() > MAX_PLAINTEXT_AGENT_MESSAGE_BYTES {
                    return Err(
                        FunctionCallError::RespondToModel(
                            limit_error("Rendered agent messages can't exceed "),
                        ),
                    );
                }
                Ok(communication)
            },
        }
    }
}

/// A plaintext communication: `message` inside its envelope.
pub fn plaintext_communication(
    author: AgentPath,
    recipient: AgentPath,
    message: String,
    trigger_turn: bool,
) -> (r: InterAgentCommunication)
    ensures
        r@ == plaintext_communication_view(author@, recipient@, message@, trigger_turn),
{
    let message_type = if trigger_turn {
        InterAgentMessageType::NewTask
    } else {
        InterAgentMessageType::Message
    };
    let content = InterAgentMessage::new(
        message_type,
        recipient.duplicate(),
        author.duplicate(),
        message,
    ).render();
    let c = InterAgentCommunication::new(author, recipient, Vec::new(), content, trigger_turn);
    proof {
        assert(c@.other_recipients =~= Seq::<Seq<char>>::empty());
    }
    c
}

/// The description of a plaintext message argument: the size limit is spelled out.
pub open spec fn plaintext_description(description: Seq<char>) -> Seq<char> {
    description + " Maximum size: "@ + decimal_digits(MAX_PLAINTEXT_AGENT_MESSAGE_BYTES as nat)
        + " UTF-8 bytes."@
}

pub open spec fn external_target_note() -> Seq<char> {
    " The target must use a configured non-OpenAI model provider."@
}

/// The description of the `message` argument on each route.
pub open spec fn message_argument_description(route: AgentMessageRoute, description: Seq<char>) -> Seq<char> {
    match route {
        AgentMessageRoute::Native => description,
        AgentMessageRoute::ProviderPlaintext => plaintext_description(description),
        AgentMessageRoute::ExternalPlaintext => plaintext_description(
            description + external_target_note(),
        ),
    }
}

/// `entries` hold the `message` argument of `route`: a string, encrypted on the native route.
pub open spec fn has_message_argument(
    entries: Seq<SchemaProperty>,
    route: AgentMessageRoute,
    description: Seq<char>,
) -> bool {
    property_lookup(entries, "message"@) matches Some(schema) && is_string_schema(
        schema,
        message_argument_description(route, description),
        route == AgentMessageRoute::Native,
    )
}

/// `spec` is the function tool `name` that takes a string `target` and the route's
/// `message` argument, both required and nothing else.
pub open spec fn is_message_tool(
    spec: ToolSpec,
    name: Seq<char>,
    description: Seq<char>,
    target_description: Seq<char>,
    message_description: Seq<char>,
    route: AgentMessageRoute,
) -> bool {
    &&& spec matches ToolSpec::Function(tool)
    &&& tool.name@ == name
    &&& tool.description@ == description
    &&& !tool.strict
    &&& tool.defer_loading is None
    &&& tool.output_schema is None
    &&& tool.parameters matches JsonSchema::Object {
        properties,
        required: Some(required),
        additional_properties: Some(additional),
    }
    &&& !additional
    &&& name_views(required@) == seq!["target"@, "message"@]
    &&& property_lookup(properties.entries@, "target"@) matches Some(target)
    &&& is_string_schema(target, target_description, false)
    &&& has_message_argument(properties.entries@, route, message_description)
    &&& properties.entries@.len() == 2
    &&& properties_unique(properties.entries@)
    &&& forall|n: Seq<char>|
        property_lookup(properties.entries@, n) is Some ==> n == "target"@ || n == "message"@
}

pub open spec fn send_message_description() -> Seq<char> {
    "Send a message to an existing agent. The message will be delivered promptly. Does not trigger a new turn."@
}

pub open spec fn send_message_target_description() -> Seq<char> {
    "Relative or canonical task name to message (from spawn_agent)."@
}

pub open spec fn send_message_message_description() -> Seq<char> {
    "Message text to queue on the target agent."@
}

pub open spec fn followup_task_description() -> Seq<char> {
    "Send a follow-up task to an existing non-root target agent and trigger a turn if it is idle. If the target is already running, deliver the task promptly at message boundaries while sampling, or after the pending tool call completes."@
}

pub open spec fn followup_task_target_description() -> Seq<char> {
    "Agent id or canonical task name to send a follow-up task to (from spawn_agent)."@
}

pub open spec fn followup_task_message_description() -> Seq<char> {
    "Message text to send to the target agent."@
}

/// The required arguments of the spawn tool on `route`.
pub open spec fn spawn_required_names(route: AgentMessageRoute) -> Seq<Seq<char>> {
    if route == AgentMessageRoute::ExternalPlaintext {
        seq!["task_name"@, "message"@, "agent_type"@]
    } else {
        seq!["task_name"@, "message"@]
    }
}

/// The `send_message` tool of the native route.
pub fn create_send_message_tool() -> (r: ToolSpec)
    ensures
        is_message_tool(
            r,
            "send_message"@,
            send_message_description(),
            send_message_target_description(),
            send_message_message_description(),
            AgentMessageRoute::Native,
        ),
{
    create_send_message_tool_for_route(AgentMessageRoute::Native)
}

/// The `send_message` tool of `message_route`.
pub fn create_send_message_tool_for_route(message_route: AgentMessageRoute) -> (r: ToolSpec)
    ensures
        is_message_tool(
            r,
            "send_message"@,
            send_message_description(),
            send_message_target_description(),
            send_message_message_description(),
            message_route,
        ),
{
    let mut properties = SchemaProperties::new();
    proof {
        reveal_strlit("target");
        reveal_strlit("message");
        assert("target"@[0] != "message"@[0]);
    }
    assert(property_lookup(properties.entries@, "target"@) is None);
    assert(property_lookup(properties.entries@, "message"@) is None);
    properties.insert(
        String::from_str("target"),
        JsonSchema::string(
            Some(String::from_str("Relative or canonical task name to message (from spawn_agent).")),
        ),
    );
    insert_agent_message_properties(
        &mut properties,
        "Message text to queue on the target agent.",
        message_route,
    );
    let required = message_required_fields("target");
    proof {
        lemma_exactly_two_properties(properties.entries@, "target"@, "message"@);
    }
    ToolSpec::Function(
        ResponsesApiTool {
            name: String::from_str("send_message"),
            description: String::from_str(
                "Send a message to an existing agent. The message will be delivered promptly. Does not trigger a new turn.",
            ),
            strict: false,
            defer_loading: None,
            parameters: JsonSchema::object(properties, required, Some(false)),
            output_schema: None,
        },
    )
}

/// The `followup_task` tool of the native route.
pub fn create_followup_task_tool() -> (r: ToolSpec)
    ensures
        is_message_tool(
            r,
            "followup_task"@,
            followup_task_description(),
            followup_task_target_description(),
            followup_task_message_description(),
            AgentMessageRoute::Native,
        ),
{
    create_followup_task_tool_for_route(AgentMessageRoute::Native)
}

/// The `followup_task` tool of `message_route`.
pub fn create_followup_task_tool_for_route(message_route: AgentMessageRoute) -> (r: ToolSpec)
    ensures
        is_message_tool(
            r,
            "followup_task"@,
            followup_task_description(),
            followup_task_target_description(),
            followup_task_message_description(),
            message_route,
        ),
{
    let mut properties = SchemaProperties::new();
    proof {
        reveal_strlit("target");
        reveal_strlit("message");
        assert("target"@[0] != "message"@[0]);
    }
    assert(property_lookup(properties.entries@, "target"@) is None);
    assert(property_lookup(properties.entries@, "message"@) is None);
    properties.insert(
        String::from_str("target"),
        JsonSchema::string(
            Some(
                String::from_str(
                    "Agent id or canonical task name to send a follow-up task to (from spawn_agent).",
                ),
            ),
        ),
    );
    insert_agent_message_properties(
        &mut properties,
        "Message text to send to the target agent.",
        message_route,
    );
    let required = message_required_fields("target");
    proof {
        lemma_exactly_two_properties(properties.entries@, "target"@, "message"@);
    }
    ToolSpec::Function(
        ResponsesApiTool {
            name: String::from_str("followup_task"),
            description: String::from_str(
                "Send a follow-up task to an existing non-root target agent and trigger a turn if it is idle. If the target is already running, deliver the task promptly at message boundaries while sampling, or after the pending tool call completes.",
            ),
            strict: false,
            defer_loading: None,
            parameters: JsonSchema::object(properties, required, Some(false)),
            output_schema: None,
        },
    )
}

/// Stores the route's `message` argument in `properties`; the other arguments stay.
pub fn insert_agent_message_properties(
    properties: &mut SchemaProperties,
    description: &str,
    message_route: AgentMessageRoute,
)
    ensures
        has_message_argument(final(properties).entries@, message_route, description@),
        final(properties).entries@.len() == old(properties).entries@.len() + (if property_lookup(
            old(properties).entries@,
            "message"@,
        ) is Some {
            0int
        } else {
            1int
        }),
        properties_unique(old(properties).entries@) ==> properties_unique(
            final(properties).entries@,
        ),
        forall|other: Seq<char>|
            other != "message"@ ==> property_lookup(final(properties).entries@, other)
                == property_lookup(old(properties).entries@, other),
{
    let message_description = match message_route {
        AgentMessageRoute::Native => String::from_str(description),
        AgentMessageRoute::ProviderPlaintext => plaintext_message_description(description),
        AgentMessageRoute::ExternalPlaintext => {
            let mut d = String::from_str(description);
            d.append(" The target must use a configured non-OpenAI model provider.");
            plaintext_message_description(d.as_str())
        },
    };
    let message = JsonSchema::string(Some(message_description));
    let schema = match message_route {
        AgentMessageRoute::Native => message.with_encrypted(),
        AgentMessageRoute::ProviderPlaintext | AgentMessageRoute::ExternalPlaintext => message,
    };
    properties.insert(String::from_str("message"), schema);
}

/// The required arguments of the spawn tool: the external route also needs `agent_type`.
pub fn spawn_required_fields(message_route: AgentMessageRoute) -> (r: Option<Vec<String>>)
    ensures
        r matches Some(v) && name_views(v@) == spawn_required_names(message_route),
{
    let mut required: Vec<String> = Vec::new();
    required.push(String::from_str("task_name"));
    required.push(String::from_str("message"));
    if message_route.requires_explicit_agent_type() {
        required.push(String::from_str("agent_type"));
    }
    proof {
        assert(name_views(required@) =~= spawn_required_names(message_route));
    }
    Some(required)
}

/// `description`, followed by the plaintext size limit.
pub fn plaintext_message_description(description: &str) -> (r: String)
    ensures
        r@ == plaintext_description(description@),
{
    let mut d = String::from_str(description);
    d.append(" Maximum size: ");
    let limit = decimal_string(MAX_PLAINTEXT_AGENT_MESSAGE_BYTES);
    d.append(limit.as_str());
    d.append(" UTF-8 bytes.");
    d
}

/// `first`, then `message`.
pub fn message_required_fields(first: &str) -> (r: Option<Vec<String>>)
    ensures
        r matches Some(v) && name_views(v@) == seq![first@, "message"@],
{
    let mut required: Vec<String> = Vec::new();
    required.push(String::from_str(first));
    required.push(String::from_str("message"));
    proof {
        assert(name_views(required@) =~= seq![first@, "message"@]);
    }
    Some(required)
}

/// The path of the `worker` task below the root agent.
pub fn worker_path() -> (r: AgentPath)
    ensures
        r@ == child_agent_path(root_agent_path(), "worker"@),
{
    let root = AgentPath::root();
    proof {
        reveal_strlit("worker");
        assert(crate::protocol::valid_agent_name("worker"@));
    }
    match root.join("worker") {
        Ok(p) => p,
        Err(_) => {
            proof {
                assert(false);
            }
            root
        },
    }
}

/// A new-task communication from the root agent to its `worker` task.
pub fn communication(
    route: AgentMessageRoute,
    source: ToolCallSource,
    recipient_is_openai: bool,
    message: String,
) -> (r: Result<InterAgentCommunication, FunctionCallError>)
    ensures
        communication_result_view(r) == communication_outcome(
            route,
            source,
            recipient_is_openai,
            root_agent_path(),
            child_agent_path(root_agent_path(), "worker"@),
            message@,
            true,
        ),
{
    route.into_communication(
        &source,
        recipient_is_openai,
        AgentPath::root(),
        worker_path(),
        message,
        true,
    )
}

/// Encrypted content travels only on the native route, to an OpenAI recipient,
/// from a direct call that carried it encrypted; such a communication has no
/// plaintext content.
pub proof fn law_encrypted_content_only_native_to_openai(
    route: AgentMessageRoute,
    source: ToolCallSource,
    recipient_is_openai: bool,
    author: Seq<char>,
    recipient: Seq<char>,
    message: Seq<char>,
    trigger_turn: bool,
)
    requires
        communication_outcome(route, source, recipient_is_openai, author, recipient, message, trigger_turn) matches Ok(c) && c.encrypted_content is Some,
    ensures
        route == AgentMessageRoute::Native,
        recipient_is_openai,
        source == ToolCallSource::Direct,
        communication_outcome(route, source, recipient_is_openai, author, recipient, message, trigger_turn) matches Ok(c) && c.content.len() == 0 && c.encrypted_content == Some(message),
{
}

/// A communication is built only from a message that passes validation, for a
/// recipient whose provider the route reaches.
pub proof fn law_accepted_message_is_valid(
    route: AgentMessageRoute,
    source: ToolCallSource,
    recipient_is_openai: bool,
    author: Seq<char>,
    recipient: Seq<char>,
    message: Seq<char>,
    trigger_turn: bool,
)
    requires
        communication_outcome(route, source, recipient_is_openai, author, recipient, message, trigger_turn) is Ok,
    ensures
        message_validation(route, message) is Ok,
        recipient_provider_check(route, recipient_is_openai) is Ok,
        !is_blank(message),
{
}

/// On the plaintext routes a communication is plaintext, carries the message
/// inside its envelope, and stays within the size limit, envelope included.
pub proof fn law_plaintext_routes_stay_within_limit(
    route: AgentMessageRoute,
    source: ToolCallSource,
    recipient_is_openai: bool,
    author: Seq<char>,
    recipient: Seq<char>,
    message: Seq<char>,
    trigger_turn: bool,
)
    requires
        route != AgentMessageRoute::Native,
        communication_outcome(route, source, recipient_is_openai, author, recipient, message, trigger_turn) is Ok,
    ensures
        communication_outcome(route, source, recipient_is_openai, author, recipient, message, trigger_turn) matches Ok(c)
            && c.encrypted_content is None
            && utf8_len(c.content) <= MAX_PLAINTEXT_AGENT_MESSAGE_BYTES
            && utf8_len(message) <= MAX_PLAINTEXT_AGENT_MESSAGE_BYTES
            && exists|i: int| 0 <= i && i + message.len() <= c.content.len() && #[trigger] c.content.subrange(i, i + message.len()) == message,
{
    lemma_plaintext_content_holds_message(author, recipient, message, trigger_turn);
}

/// The envelope of a plaintext communication holds the message unchanged.
pub proof fn lemma_plaintext_content_holds_message(
    author: Seq<char>,
    recipient: Seq<char>,
    message: Seq<char>,
    trigger_turn: bool,
)
    ensures
        exists|i: int|
            0 <= i && i + message.len() <= plaintext_communication_view(author, recipient, message, trigger_turn).content.len()
                && #[trigger] plaintext_communication_view(author, recipient, message, trigger_turn).content.subrange(i, i + message.len()) == message,
{
    let kind = if trigger_turn {
        InterAgentMessageType::NewTask
    } else {
        InterAgentMessageType::Message
    };
    let prefix = "<inter_agent_message type=\""@ + crate::protocol::message_type_name(kind) + "\" author=\""@ + author
        + "\" recipient=\""@ + recipient + "\">\n"@;
    let content = render_inter_agent_message(kind, recipient, author, message);
    assert(content == prefix + message + "\n</inter_agent_message>"@);
    let i = prefix.len() as int;
    assert(content.subrange(i, i + message.len()) =~= message);
    let c = plaintext_communication_view(author, recipient, message, trigger_turn);
    assert(c.content == content);
    assert(0 <= i && i + message.len() <= c.content.len());
    assert(c.content.subrange(i, i + message.len()) == message);
}

/// The native route keeps its encrypted transport without a size cap: a non-blank direct
/// message to an OpenAI agent is carried encrypted, whatever its size.
pub proof fn law_native_direct_has_no_size_cap(
    author: Seq<char>,
    recipient: Seq<char>,
    message: Seq<char>,
    trigger_turn: bool,
)
    requires
        !is_blank(message),
    ensures
        communication_outcome(AgentMessageRoute::Native, ToolCallSource::Direct, true, author, recipient, message, trigger_turn)
            == Ok::<CommunicationView, Seq<char>>(CommunicationView {
                author,
                recipient,
                other_recipients: Seq::empty(),
                content: Seq::empty(),
                encrypted_content: Some(message),
                trigger_turn,
            }),
{
}

/// A communication goes from the author to the recipient named in the call, to no
/// one else, and wakes the recipient exactly when the caller asked for a new turn:
/// a queued message never triggers a turn, whatever the route or source. A plaintext
/// communication carries the message in an envelope of type `new_task` when it
/// triggers a turn and of type `message` otherwise.
pub proof fn law_communication_keeps_the_requested_trigger(
    route: AgentMessageRoute,
    source: ToolCallSource,
    recipient_is_openai: bool,
    author: Seq<char>,
    recipient: Seq<char>,
    message: Seq<char>,
    trigger_turn: bool,
)
    requires
        communication_outcome(route, source, recipient_is_openai, author, recipient, message, trigger_turn) is Ok,
    ensures
        communication_outcome(route, source, recipient_is_openai, author, recipient, message, trigger_turn) matches Ok(c)
            && c.trigger_turn == trigger_turn
            && c.author == author
            && c.recipient == recipient
            && c.other_recipients.len() == 0
            && (c.encrypted_content is None ==> c.content == "<inter_agent_message type=\""@
                + (if trigger_turn { "new_task"@ } else { "message"@ }) + "\" author=\""@ + author
                + "\" recipient=\""@ + recipient + "\">\n"@ + message + "\n</inter_agent_message>"@),
{
}

/// A spawn request that is accepted keeps the role it asked for, on every route:
/// the result is the requested `agent_type` with surrounding whitespace removed, or
/// no role when none or only whitespace was given. The native and provider routes
/// accept every request; only the external route refuses any.
pub proof fn law_accepted_spawn_keeps_the_requested_role(
    route: AgentMessageRoute,
    agent_type: Option<&str>,
    has_model_override: bool,
    has_reasoning_effort_override: bool,
)
    ensures
        spawn_selection_outcome(route, agent_type, has_model_override, has_reasoning_effort_override) is Ok
            ==> spawn_selection_outcome(
            route,
            agent_type,
            has_model_override,
            has_reasoning_effort_override,
        ) == Ok::<Option<Seq<char>>, Seq<char>>(
            match agent_type {
                Some(t) => if trim_chars(t@).len() > 0 {
                    Some(trim_chars(t@))
                } else {
                    None
                },
                None => None,
            },
        ),
        route != AgentMessageRoute::ExternalPlaintext ==> spawn_selection_outcome(
            route,
            agent_type,
            has_model_override,
            has_reasoning_effort_override,
        ) is Ok,
{
}

} // verus!
