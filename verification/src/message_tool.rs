//! The decisions of the `send_message` and `followup_task` tools: what reaches the
//! target agent, and in which form.

use vstd::prelude::*;

use crate::multi_agent_message::{communication_outcome, AgentMessageRoute};
use crate::protocol::{root_agent_path, source_agent_path, AgentPath, SessionSource};
use crate::tool_context::{model_error_text, FunctionCallError, ToolCallSource};

verus! {

/// The arguments of the `send_message` tool.
#[derive(Debug, PartialEq, Eq)]
pub struct SendMessageArgs {
    pub target: String,
    pub message: String,
}

/// The arguments of the `followup_task` tool.
#[derive(Debug, PartialEq, Eq)]
pub struct FollowupTaskArgs {
    pub target: String,
    pub message: String,
}

/// Whether a delivered message wakes its target.
#[derive(Debug, PartialEq, Eq, Clone, Copy, Structural)]
pub enum MessageDeliveryMode {
    /// Queue the message; the target reads it on its next turn.
    QueueOnly,
    /// Deliver the message and start a turn of the target if it is idle.
    TriggerTurn,
}

/// A message as it is handed to the target agent's thread.
#[derive(Debug, PartialEq, Eq)]
pub enum AgentMessage {
    /// An encrypted payload, readable by the OpenAI provider only.
    Encrypted(String),
    /// Plain text.
    Plaintext(String),
}

/// A message, as a sequence of characters with its form.
pub enum AgentMessageView {
    Encrypted(Seq<char>),
    Plaintext(Seq<char>),
}

impl View for AgentMessage {
    type V = AgentMessageView;

    open spec fn view(&self) -> AgentMessageView {
        match self {
            AgentMessage::Encrypted(m) => AgentMessageView::Encrypted(m@),
            AgentMessage::Plaintext(m) => AgentMessageView::Plaintext(m@),
        }
    }
}

/// The form in which a tool message travels: encrypted exactly when the call
/// carried it encrypted.
pub open spec fn message_from_tool(message: Seq<char>, source: ToolCallSource) -> AgentMessageView {
    match source {
        ToolCallSource::Direct => AgentMessageView::Encrypted(message),
        _ => AgentMessageView::Plaintext(message),
    }
}

/// The message of a tool call, in the form in which the call carried it.
pub fn agent_message_from_tool(message: String, source: &ToolCallSource) -> (r: AgentMessage)
    ensures
        r@ == message_from_tool(message@, *source),
{
    match source {
        ToolCallSource::Direct => AgentMessage::Encrypted(message),
        _ => AgentMessage::Plaintext(message),
    }
}

/// What a route delivers: the native route keeps the call's form; the plaintext
/// routes always deliver plain text.
pub open spec fn delivered_message(
    route: AgentMessageRoute,
    source: ToolCallSource,
    message: Seq<char>,
) -> AgentMessageView {
    if route == AgentMessageRoute::Native {
        message_from_tool(message, source)
    } else {
        AgentMessageView::Plaintext(message)
    }
}

/// The path of the agent that sends: the caller's own path, or the root's.
pub open spec fn sender_path(session_source: SessionSource) -> Seq<char> {
    match source_agent_path(session_source) {
        Some(p) => p,
        None => root_agent_path(),
    }
}

pub open spec fn missing_agent_path_error() -> Seq<char> {
    "target agent is missing an agent_path"@
}

/// The outcome of preparing a delivery: the form of the message, or the error
/// that the model sees.
pub open spec fn delivery_outcome(
    route: AgentMessageRoute,
    source: ToolCallSource,
    mode: MessageDeliveryMode,
    session_source: SessionSource,
    receiver_is_openai: bool,
    receiver_path: Option<Seq<char>>,
    message: Seq<char>,
) -> Result<AgentMessageView, Seq<char>> {
    match receiver_path {
        None => Err(missing_agent_path_error()),
        Some(path) => match communication_outcome(
            route,
            source,
            receiver_is_openai,
            sender_path(session_source),
            path,
            message,
            mode == MessageDeliveryMode::TriggerTurn,
        ) {
            Err(e) => Err(e),
            Ok(_) => Ok(delivered_message(route, source, message)),
        },
    }
}

/// Decides what reaches the target of a messaging tool call, once the target is
/// resolved: refuses a target without a path, checks the route, the recipient's
/// provider and the size of the rendered message, and picks the message's form.
/// A message is delivered only when this returns `Ok`.
pub fn prepare_agent_message_delivery(
    message_route: AgentMessageRoute,
    source: &ToolCallSource,
    mode: MessageDeliveryMode,
    session_source: &SessionSource,
    receiver_is_openai: bool,
    receiver_path: Option<AgentPath>,
    message: String,
) -> (r: Result<AgentMessage, FunctionCallError>)
    ensures
        (match r {
            Ok(m) => Ok(m@),
            Err(e) => Err(model_error_text(e)),
        }) == delivery_outcome(
            message_route,
            *source,
            mode,
            *session_source,
            receiver_is_openai,
            match receiver_path {
                Some(p) => Some(p@),
                None => None,
            },
            message@,
        ),
{
    let receiver_path = match receiver_path {
        Some(p) => p,
        None => {
            return Err(
                FunctionCallError::RespondToModel(
                    String::from_str("target agent is missing an agent_path"),
                ),
            );
        },
    };
    let author = match session_source.get_agent_path() {
        Some(p) => p,
        None => AgentPath::root(),
    };
    let checked = message_route.into_communication(
        source,
        receiver_is_openai,
        author,
        receiver_path,
        message.clone(),
        mode == MessageDeliveryMode::TriggerTurn,
    );
    if let Err(e) = checked {
        return Err(e);
    }
    if message_route == AgentMessageRoute::Native {
        Ok(agent_message_from_tool(message, source))
    } else {
        Ok(AgentMessage::Plaintext(message))
    }
}

/// The output of a tool call.
#[derive(Debug, PartialEq, Eq)]
pub struct FunctionToolOutput {
    pub text: String,
    pub success: Option<bool>,
}

impl FunctionToolOutput {
    pub fn from_text(text: String, success: Option<bool>) -> (r: FunctionToolOutput)
        ensures
            r.text@ == text@,
            r.success == success,
    {
        FunctionToolOutput { text, success }
    }
}

/// The output of a delivered message: empty text, marked successful.
pub fn delivered_message_output() -> (r: FunctionToolOutput)
    ensures
        r.text@ == Seq::<char>::empty(),
        r.success == Some(true),
{
    FunctionToolOutput::from_text(String::new(), Some(true))
}

/// An encrypted message reaches only an OpenAI agent, over the native route, from
/// a direct call that carried it encrypted; the plaintext routes deliver plain text.
pub proof fn law_encrypted_delivery_only_to_openai(
    route: AgentMessageRoute,
    source: ToolCallSource,
    mode: MessageDeliveryMode,
    session_source: SessionSource,
    receiver_is_openai: bool,
    receiver_path: Option<Seq<char>>,
    message: Seq<char>,
)
    requires
        delivery_outcome(route, source, mode, session_source, receiver_is_openai, receiver_path, message) is Ok,
    ensures
        delivery_outcome(route, source, mode, session_source, receiver_is_openai, receiver_path, message) matches Ok(m)
            && (m is Encrypted ==> route == AgentMessageRoute::Native && receiver_is_openai
            && source == ToolCallSource::Direct)
            && (route != AgentMessageRoute::Native ==> m == AgentMessageView::Plaintext(message)),
{
}

/// A message is delivered as it was written: its text is the tool call's message.
pub proof fn law_delivered_text_is_the_message(
    route: AgentMessageRoute,
    source: ToolCallSource,
    mode: MessageDeliveryMode,
    session_source: SessionSource,
    receiver_is_openai: bool,
    receiver_path: Option<Seq<char>>,
    message: Seq<char>,
)
    requires
        delivery_outcome(route, source, mode, session_source, receiver_is_openai, receiver_path, message) is Ok,
    ensures
        delivery_outcome(route, source, mode, session_source, receiver_is_openai, receiver_path, message) matches Ok(m)
            && (m == AgentMessageView::Encrypted(message) || m == AgentMessageView::Plaintext(message)),
{
}

} // verus!
