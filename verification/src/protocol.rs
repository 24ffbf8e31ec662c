//! Agent identities and the inter-agent message envelope.

use vstd::prelude::*;

use vstd::string::StringSliceAdditionalSpecFns;

use crate::text::option_chars;

verus! {

/// The identifier of a conversation thread.
#[derive(Clone, Copy, PartialEq, Eq, Structural, Debug, Hash)]
pub struct ThreadId {
    pub value: u64,
}

/// A task name may hold lower-case ASCII letters, digits and `_`.
pub open spec fn is_agent_name_char(c: char) -> bool {
    ||| ('a' <= c && c <= 'z')
    ||| ('0' <= c && c <= '9')
    ||| c == '_'
}

/// A task name is non-empty and made of task-name characters.
pub open spec fn valid_agent_name(name: Seq<char>) -> bool {
    &&& name.len() > 0
    &&& forall|i: int| 0 <= i < name.len() ==> is_agent_name_char(#[trigger] name[i])
}

/// The path of the root agent.
pub open spec fn root_agent_path() -> Seq<char> {
    "/root"@
}

/// The path of a child named `name` below `parent`.
pub open spec fn child_agent_path(parent: Seq<char>, name: Seq<char>) -> Seq<char> {
    parent + "/"@ + name
}

/// Why a task name was refused.
#[derive(Clone, Copy, PartialEq, Eq, Structural, Debug)]
pub enum AgentPathError {
    EmptyName,
    InvalidCharacter,
}

/// The canonical path of an agent in the agent tree, such as `/root/worker`.
#[derive(Debug, PartialEq, Eq)]
pub struct AgentPath {
    path: String,
}

impl View for AgentPath {
    type V = Seq<char>;

    closed spec fn view(&self) -> Seq<char> {
        self.path@
    }
}

impl AgentPath {
    /// The path of the root agent.
    pub fn root() -> (r: AgentPath)
        ensures
            r@ == root_agent_path(),
    {
        AgentPath { path: String::from_str("/root") }
    }

    /// The path of the child task `name` below this agent.
    pub fn join(&self, name: &str) -> (r: Result<AgentPath, AgentPathError>)
        ensures
            r is Ok <==> valid_agent_name(name@),
            r matches Ok(p) ==> p@ == child_agent_path(self@, name@),
            r matches Err(e) ==> (e == AgentPathError::EmptyName <==> name@.len() == 0),
    {
        broadcast use vstd::string::group_string_axioms;

        if name.is_empty() {
            return Err(AgentPathError::EmptyName);
        }
        if !name.is_ascii() {
            proof {
                assert(!valid_agent_name(name@)) by {
                    if valid_agent_name(name@) {
                        assert forall|i: int| 0 <= i < name@.len() implies '\0' <= #[trigger] name@[i]
                            <= '\u{7f}' by {
                            assert(is_agent_name_char(name@[i]));
                        }
                        assert(vstd::utf8::is_ascii_chars(name@));
                    }
                }
            }
            return Err(AgentPathError::InvalidCharacter);
        }
        let bytes = name.as_bytes();
        let n = bytes.len();
        assert(n == name@.len());
        let mut i: usize = 0;
        while i < n
            invariant
                n == bytes@.len(),
                n == name@.len(),
                bytes@ == name.spec_bytes(),
                vstd::string::is_ascii(name),
                0 <= i <= n,
                forall|j: int| 0 <= j < i ==> is_agent_name_char(#[trigger] name@[j]),
            decreases n - i,
        {
            let b = bytes[i];
            assert(name@[i as int] as u8 == b);
            let ok = (97u8 <= b && b <= 122u8) || (48u8 <= b && b <= 57u8) || b == 95u8;
            assert('\0' <= name@[i as int] <= '\u{7f}');
            if !ok {
                assert(!is_agent_name_char(name@[i as int]));
                return Err(AgentPathError::InvalidCharacter);
            }
            assert(is_agent_name_char(name@[i as int]));
            i += 1;
        }
        let mut path = self.path.clone();
        path.append("/");
        path.append(name);
        Ok(AgentPath { path })
    }

    /// The path as text.
    pub fn as_str(&self) -> (r: &str)
        ensures
            r@ == self@,
    {
        self.path.as_str()
    }

    /// A copy of this path.
    pub fn duplicate(&self) -> (r: AgentPath)
        ensures
            r@ == self@,
    {
        AgentPath { path: self.path.clone() }
    }
}

/// Whether an inter-agent message starts a new task or is delivered as a message.
#[derive(Clone, Copy, PartialEq, Eq, Structural, Debug)]
pub enum InterAgentMessageType {
    NewTask,
    Message,
}

/// The name of a message type in the rendered envelope.
pub open spec fn message_type_name(kind: InterAgentMessageType) -> Seq<char> {
    match kind {
        InterAgentMessageType::NewTask => "new_task"@,
        InterAgentMessageType::Message => "message"@,
    }
}

/// The plaintext envelope in which a message reaches its recipient.
pub open spec fn render_inter_agent_message(
    kind: InterAgentMessageType,
    recipient: Seq<char>,
    author: Seq<char>,
    message: Seq<char>,
) -> Seq<char> {
    "<inter_agent_message type=\""@ + message_type_name(kind) + "\" author=\""@ + author
        + "\" recipient=\""@ + recipient + "\">\n"@ + message + "\n</inter_agent_message>"@
}

/// A plaintext message from one agent to another, before rendering.
pub struct InterAgentMessage {
    pub message_type: InterAgentMessageType,
    pub recipient: AgentPath,
    pub author: AgentPath,
    pub message: String,
}

impl InterAgentMessage {
    pub fn new(
        message_type: InterAgentMessageType,
        recipient: AgentPath,
        author: AgentPath,
        message: String,
    ) -> (r: InterAgentMessage)
        ensures
            r.message_type == message_type,
            r.recipient@ == recipient@,
            r.author@ == author@,
            r.message@ == message@,
    {
        InterAgentMessage { message_type, recipient, author, message }
    }

    /// The message inside its envelope.
    pub fn render(&self) -> (r: String)
        ensures
            r@ == render_inter_agent_message(
                self.message_type,
                self.recipient@,
                self.author@,
                self.message@,
            ),
    {
        let mut out = String::from_str("<inter_agent_message type=\"");
        match self.message_type {
            InterAgentMessageType::NewTask => out.append("new_task"),
            InterAgentMessageType::Message => out.append("message"),
        }
        out.append("\" author=\"");
        out.append(self.author.as_str());
        out.append("\" recipient=\"");
        out.append(self.recipient.as_str());
        out.append("\">\n");
        out.append(self.message.as_str());
        out.append("\n</inter_agent_message>");
        out
    }
}

/// A message as it is handed to the recipient's thread: either plaintext content
/// or an encrypted payload that only the OpenAI provider can read.
#[derive(Debug, PartialEq, Eq)]
pub struct InterAgentCommunication {
    pub author: AgentPath,
    pub recipient: AgentPath,
    pub other_recipients: Vec<AgentPath>,
    pub content: String,
    pub encrypted_content: Option<String>,
    pub trigger_turn: bool,
}

/// What a communication carries, as sequences of characters.
pub struct CommunicationView {
    pub author: Seq<char>,
    pub recipient: Seq<char>,
    pub other_recipients: Seq<Seq<char>>,
    pub content: Seq<char>,
    pub encrypted_content: Option<Seq<char>>,
    pub trigger_turn: bool,
}

/// The paths in `paths`, as sequences of characters.
pub open spec fn path_views(paths: Seq<AgentPath>) -> Seq<Seq<char>> {
    paths.map_values(|p: AgentPath| p@)
}

impl View for InterAgentCommunication {
    type V = CommunicationView;

    open spec fn view(&self) -> CommunicationView {
        CommunicationView {
            author: self.author@,
            recipient: self.recipient@,
            other_recipients: path_views(self.other_recipients@),
            content: self.content@,
            encrypted_content: option_chars(self.encrypted_content),
            trigger_turn: self.trigger_turn,
        }
    }
}

impl InterAgentCommunication {
    /// A plaintext communication.
    pub fn new(
        author: AgentPath,
        recipient: AgentPath,
        other_recipients: Vec<AgentPath>,
        content: String,
        trigger_turn: bool,
    ) -> (r: InterAgentCommunication)
        ensures
            r.author@ == author@,
            r.recipient@ == recipient@,
            r.other_recipients@ == other_recipients@,
            r.content@ == content@,
            r.encrypted_content is None,
            r.trigger_turn == trigger_turn,
    {
        InterAgentCommunication {
            author,
            recipient,
            other_recipients,
            content,
            encrypted_content: None,
            trigger_turn,
        }
    }

    /// A communication whose payload stays encrypted; its plaintext content is empty.
    pub fn new_encrypted(
        author: AgentPath,
        recipient: AgentPath,
        other_recipients: Vec<AgentPath>,
        encrypted_content: String,
        trigger_turn: bool,
    ) -> (r: InterAgentCommunication)
        ensures
            r.author@ == author@,
            r.recipient@ == recipient@,
            r.other_recipients@ == other_recipients@,
            r.content@ == Seq::<char>::empty(),
            r.encrypted_content matches Some(e) && e@ == encrypted_content@,
            r.trigger_turn == trigger_turn,
    {
        InterAgentCommunication {
            author,
            recipient,
            other_recipients,
            content: String::new(),
            encrypted_content: Some(encrypted_content),
            trigger_turn,
        }
    }
}

/// How a child thread was started from its parent.
#[derive(Debug, PartialEq, Eq)]
pub enum SubAgentSource {
    /// Spawned by a collaboration tool call of the parent thread.
    ThreadSpawn { parent_thread_id: ThreadId, depth: u32, agent_path: Option<AgentPath> },
    Review,
    Compact,
}

/// Where a session comes from.
#[derive(Debug, PartialEq, Eq)]
pub enum SessionSource {
    Cli,
    Exec,
    SubAgent(SubAgentSource),
}

/// The parent recorded in a session source.
pub open spec fn source_parent(source: SessionSource) -> Option<ThreadId> {
    match source {
        SessionSource::SubAgent(SubAgentSource::ThreadSpawn { parent_thread_id, .. }) => Some(
            parent_thread_id,
        ),
        _ => None,
    }
}

/// The agent path recorded in a session source.
pub open spec fn source_agent_path(source: SessionSource) -> Option<Seq<char>> {
    match source {
        SessionSource::SubAgent(SubAgentSource::ThreadSpawn { agent_path: Some(p), .. }) => Some(p@),
        _ => None,
    }
}

impl SessionSource {
    /// The parent thread of a spawned subagent.
    pub fn parent_thread_id(&self) -> (r: Option<ThreadId>)
        ensures
            r == source_parent(*self),
    {
        match self {
            SessionSource::SubAgent(SubAgentSource::ThreadSpawn { parent_thread_id, .. }) => Some(
                *parent_thread_id,
            ),
            _ => None,
        }
    }

    /// The agent path of a spawned subagent.
    pub fn get_agent_path(&self) -> (r: Option<AgentPath>)
        ensures
            match r {
                Some(p) => source_agent_path(*self) == Some(p@),
                None => source_agent_path(*self) is None,
            },
    {
        match self {
            SessionSource::SubAgent(SubAgentSource::ThreadSpawn { agent_path: Some(p), .. }) => Some(
                p.duplicate(),
            ),
            _ => None,
        }
    }
}

/// How much history a spawned child receives from its parent.
#[derive(Debug, PartialEq, Eq, Clone, Copy, Structural)]
pub enum SpawnAgentForkMode {
    FullHistory,
    LastTurns(u32),
}

} // verus!
