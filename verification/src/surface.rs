//! The collaboration tool surfaces of a session: the canonical surface on the
//! session's own route, and the external surface through which an OpenAI session
//! reaches agents of other providers.

use vstd::prelude::*;

use crate::followup_task::Handler as FollowupTaskHandler;
use crate::multi_agent_message::{
    create_followup_task_tool_for_route, create_send_message_tool_for_route,
    followup_task_description, followup_task_message_description,
    followup_task_target_description, is_message_tool, route_source_policy,
    send_message_description, send_message_message_description, send_message_target_description,
    AgentMessageRoute,
};
use crate::text::option_chars;
use crate::tool_context::{
    DirectToolCallSourcePolicy, ResponsesApiNamespace, ResponsesApiNamespaceTool, ToolExposure,
    ToolName, ToolPayload, ToolSpec,
};

verus! {

/// The description of the canonical collaboration namespace.
pub open spec fn canonical_namespace_description() -> Seq<char> {
    "Tools for spawning and managing sub-agents."@
}

/// The namespace of the external surface.
pub open spec fn external_agent_namespace() -> Seq<char> {
    "external_agents"@
}

/// The description of the external surface's namespace.
pub open spec fn external_namespace_description() -> Seq<char> {
    "Plaintext collaboration tools for authorized agents using non-OpenAI model providers."@
}

/// The version of the multi-agent tools.
#[derive(Debug, PartialEq, Eq, Clone, Copy, Structural)]
pub enum MultiAgentVersion {
    Disabled,
    V1,
    V2,
}

/// The options of a spawn tool.
#[derive(Debug, PartialEq, Eq)]
pub struct SpawnAgentToolOptions {
    /// The models that a spawn request may pick.
    pub available_models: Vec<String>,
    /// The description of the configured agent roles.
    pub agent_type_description: String,
    /// Whether the agent type, model and reasoning arguments are hidden.
    pub hide_agent_type_model_reasoning: bool,
    pub multi_agent_version: MultiAgentVersion,
}

/// Spawn options, as sequences of characters.
pub struct SpawnOptionsView {
    pub available_models: Seq<Seq<char>>,
    pub agent_type_description: Seq<char>,
    pub hide_agent_type_model_reasoning: bool,
    pub multi_agent_version: MultiAgentVersion,
}

impl View for SpawnAgentToolOptions {
    type V = SpawnOptionsView;

    open spec fn view(&self) -> SpawnOptionsView {
        SpawnOptionsView {
            available_models: self.available_models@.map_values(|m: String| m@),
            agent_type_description: self.agent_type_description@,
            hide_agent_type_model_reasoning: self.hide_agent_type_model_reasoning,
            multi_agent_version: self.multi_agent_version,
        }
    }
}

impl Default for SpawnAgentToolOptions {
    fn default() -> (r: Self)
        ensures
            r@.available_models.len() == 0,
            r@.agent_type_description.len() == 0,
            !r.hide_agent_type_model_reasoning,
            r.multi_agent_version == MultiAgentVersion::Disabled,
    {
        SpawnAgentToolOptions {
            available_models: Vec::new(),
            agent_type_description: String::new(),
            hide_agent_type_model_reasoning: false,
            multi_agent_version: MultiAgentVersion::Disabled,
        }
    }
}

/// The spawn options of the external surface: the caller's visibility and version
/// settings, nothing else of the canonical options.
pub open spec fn external_spawn_options(spawn: SpawnOptionsView) -> SpawnOptionsView {
    SpawnOptionsView {
        available_models: Seq::empty(),
        agent_type_description: Seq::empty(),
        hide_agent_type_model_reasoning: spawn.hide_agent_type_model_reasoning,
        multi_agent_version: spawn.multi_agent_version,
    }
}

/// The timeouts of the wait tool.
#[derive(Debug, PartialEq, Eq, Clone, Copy, Structural)]
pub struct WaitAgentTimeoutOptions {
    pub default_timeout_ms: u64,
    pub min_timeout_ms: u64,
    pub max_timeout_ms: u64,
}

/// The options with which the multi-agent tools of a session are registered.
pub struct MultiAgentV2ToolOptions<'a> {
    pub namespace: Option<&'a str>,
    pub exposure: ToolExposure,
    pub provider_is_openai: bool,
    pub external_bridge_enabled: bool,
    pub spawn: SpawnAgentToolOptions,
    pub wait_agent: Option<WaitAgentTimeoutOptions>,
}

/// The collaboration tools.
#[derive(Debug, PartialEq, Eq, Clone, Copy, Structural)]
pub enum CollabToolKind {
    SpawnAgent,
    SendMessage,
    FollowupTask,
    WaitAgent,
    InterruptAgent,
    ListAgents,
}

/// The handler of a collaboration tool, with what it was made with.
#[derive(Debug, PartialEq, Eq)]
pub enum CollabToolHandler {
    SpawnAgent { options: SpawnAgentToolOptions, message_route: AgentMessageRoute },
    SendMessage { message_route: AgentMessageRoute },
    FollowupTask(FollowupTaskHandler),
    WaitAgent { options: WaitAgentTimeoutOptions },
    InterruptAgent,
    ListAgents,
}

/// The name of each collaboration tool.
pub open spec fn collab_tool_name(kind: CollabToolKind) -> Seq<char> {
    match kind {
        CollabToolKind::SpawnAgent => "spawn_agent"@,
        CollabToolKind::SendMessage => "send_message"@,
        CollabToolKind::FollowupTask => "followup_task"@,
        CollabToolKind::WaitAgent => "wait_agent"@,
        CollabToolKind::InterruptAgent => "interrupt_agent"@,
        CollabToolKind::ListAgents => "list_agents"@,
    }
}

/// The tool that a handler serves.
pub open spec fn handler_kind(h: CollabToolHandler) -> CollabToolKind {
    match h {
        CollabToolHandler::SpawnAgent { .. } => CollabToolKind::SpawnAgent,
        CollabToolHandler::SendMessage { .. } => CollabToolKind::SendMessage,
        CollabToolHandler::FollowupTask(_) => CollabToolKind::FollowupTask,
        CollabToolHandler::WaitAgent { .. } => CollabToolKind::WaitAgent,
        CollabToolHandler::InterruptAgent => CollabToolKind::InterruptAgent,
        CollabToolHandler::ListAgents => CollabToolKind::ListAgents,
    }
}

/// The message route of a messaging handler.
pub open spec fn handler_route(h: CollabToolHandler) -> Option<AgentMessageRoute> {
    match h {
        CollabToolHandler::SpawnAgent { message_route, .. } => Some(message_route),
        CollabToolHandler::SendMessage { message_route } => Some(message_route),
        CollabToolHandler::FollowupTask(f) => Some(f.message_route),
        _ => None,
    }
}

/// `spec` is the schema of the messaging tool `kind` on `route`.
pub open spec fn collab_tool_spec(kind: CollabToolKind, route: AgentMessageRoute, spec: ToolSpec) -> bool {
    match kind {
        CollabToolKind::SendMessage => is_message_tool(
            spec,
            "send_message"@,
            send_message_description(),
            send_message_target_description(),
            send_message_message_description(),
            route,
        ),
        CollabToolKind::FollowupTask => is_message_tool(
            spec,
            "followup_task"@,
            followup_task_description(),
            followup_task_target_description(),
            followup_task_message_description(),
            route,
        ),
        _ => false,
    }
}

impl CollabToolHandler {
    /// The tool's name, without a namespace.
    pub fn tool_name(&self) -> (r: ToolName)
        ensures
            r.namespace is None,
            r.name@ == collab_tool_name(handler_kind(*self)),
    {
        match self {
            CollabToolHandler::SpawnAgent { .. } => ToolName::plain("spawn_agent"),
            CollabToolHandler::SendMessage { .. } => ToolName::plain("send_message"),
            CollabToolHandler::FollowupTask(f) => f.tool_name(),
            CollabToolHandler::WaitAgent { .. } => ToolName::plain("wait_agent"),
            CollabToolHandler::InterruptAgent => ToolName::plain("interrupt_agent"),
            CollabToolHandler::ListAgents => ToolName::plain("list_agents"),
        }
    }

    /// The schema of the messaging tools that this library defines; the spawn,
    /// wait, interrupt and list tools are described by their own handlers.
    pub fn spec(&self) -> (r: Option<ToolSpec>)
        ensures
            r is Some <==> (handler_kind(*self) == CollabToolKind::SendMessage || handler_kind(*self)
                == CollabToolKind::FollowupTask),
            r matches Some(s) ==> handler_route(*self) matches Some(route) && collab_tool_spec(
                handler_kind(*self),
                route,
                s,
            ),
    {
        match self {
            CollabToolHandler::SendMessage { message_route } => Some(
                create_send_message_tool_for_route(*message_route),
            ),
            CollabToolHandler::FollowupTask(f) => Some(f.spec()),
            _ => None,
        }
    }

    /// Messaging handlers read direct calls as their route does; the others keep
    /// the default policy.
    pub fn direct_tool_call_source_policy(&self) -> (r: DirectToolCallSourcePolicy)
        ensures
            r == match handler_route(*self) {
                Some(route) => route_source_policy(route),
                None => DirectToolCallSourcePolicy::Encrypted,
            },
    {
        match self {
            CollabToolHandler::SpawnAgent { message_route, .. } => message_route.direct_tool_call_source_policy(),
            CollabToolHandler::SendMessage { message_route } => message_route.direct_tool_call_source_policy(),
            CollabToolHandler::FollowupTask(f) => f.direct_tool_call_source_policy(),
            _ => DirectToolCallSourcePolicy::default(),
        }
    }

    /// Collaboration tools are function tools.
    pub fn matches_kind(&self, payload: &ToolPayload) -> (r: bool)
        ensures
            r == (*payload is Function),
    {
        match payload {
            ToolPayload::Function { .. } => true,
            _ => false,
        }
    }
}

/// A handler registered under a namespace.
#[derive(Debug, PartialEq, Eq)]
pub struct NamespaceOverride {
    pub handler: CollabToolHandler,
    pub namespace: String,
    pub namespace_description: String,
}

/// A function spec placed in `namespace`; other specs are left as they are.
pub open spec fn namespaced_spec_ok(
    inner: ToolSpec,
    namespace: Seq<char>,
    description: Seq<char>,
    r: ToolSpec,
) -> bool {
    match inner {
        ToolSpec::Function(tool) => r matches ToolSpec::Namespace(ns) && ns.name@ == namespace
            && ns.description@ == description && ns.tools@ == seq![
            ResponsesApiNamespaceTool::Function(tool),
        ],
        _ => r == inner,
    }
}

impl NamespaceOverride {
    /// The handler's tool name, placed in the namespace.
    pub fn tool_name(&self) -> (r: ToolName)
        ensures
            r.namespace matches Some(n) && n@ == self.namespace@,
            r.name@ == collab_tool_name(handler_kind(self.handler)),
    {
        ToolName::namespaced(self.namespace.clone(), self.handler.tool_name().name)
    }

    /// `inner`, the handler's spec, placed in the namespace when it is a function spec.
    pub fn wrap_spec(&self, inner: ToolSpec) -> (r: ToolSpec)
        ensures
            namespaced_spec_ok(inner, self.namespace@, self.namespace_description@, r),
    {
        match inner {
            ToolSpec::Function(tool) => {
                let mut tools = Vec::new();
                tools.push(ResponsesApiNamespaceTool::Function(tool));
                proof {
                    assert(tools@ =~= seq![ResponsesApiNamespaceTool::Function(tool)]);
                }
                ToolSpec::Namespace(
                    ResponsesApiNamespace {
                        name: self.namespace.clone(),
                        description: self.namespace_description.clone(),
                        tools,
                    },
                )
            },
            spec => spec,
        }
    }

    /// The handler's spec, placed in the namespace.
    pub fn spec(&self) -> (r: Option<ToolSpec>)
        ensures
            r is Some <==> (handler_kind(self.handler) == CollabToolKind::SendMessage
                || handler_kind(self.handler) == CollabToolKind::FollowupTask),
            r matches Some(s) ==> {
                &&& s matches ToolSpec::Namespace(ns)
                &&& ns.name@ == self.namespace@
                &&& ns.description@ == self.namespace_description@
                &&& ns.tools@.len() == 1
                &&& ns.tools@[0] matches ResponsesApiNamespaceTool::Function(tool)
                &&& handler_route(self.handler) matches Some(route)
                &&& collab_tool_spec(handler_kind(self.handler), route, ToolSpec::Function(tool))
            },
    {
        match self.handler.spec() {
            Some(inner) => Some(self.wrap_spec(inner)),
            None => None,
        }
    }

    /// The handler's policy.
    pub fn direct_tool_call_source_policy(&self) -> (r: DirectToolCallSourcePolicy)
        ensures
            r == match handler_route(self.handler) {
                Some(route) => route_source_policy(route),
                None => DirectToolCallSourcePolicy::Encrypted,
            },
    {
        self.handler.direct_tool_call_source_policy()
    }

    /// The handler's payload kind.
    pub fn matches_kind(&self, payload: &ToolPayload) -> (r: bool)
        ensures
            r == (*payload is Function),
    {
        self.handler.matches_kind(payload)
    }
}

/// A handler as it is registered: plain, or under a namespace.
#[derive(Debug, PartialEq, Eq)]
pub enum RegisteredHandler {
    Plain(CollabToolHandler),
    Namespaced(NamespaceOverride),
}

/// A registered tool and who may call it.
#[derive(Debug, PartialEq, Eq)]
pub struct RegisteredTool {
    pub handler: RegisteredHandler,
    pub exposure: ToolExposure,
}

/// The tools registered for a session, in registration order.
#[derive(Debug, PartialEq, Eq)]
pub struct ToolRegistry {
    pub tools: Vec<RegisteredTool>,
}

/// A registered tool, as plain values.
pub struct ToolEntryView {
    pub kind: CollabToolKind,
    pub message_route: Option<AgentMessageRoute>,
    pub spawn_options: Option<SpawnOptionsView>,
    pub wait_options: Option<WaitAgentTimeoutOptions>,
    pub namespace: Option<Seq<char>>,
    pub namespace_description: Option<Seq<char>>,
    pub exposure: ToolExposure,
}

/// A handler, as plain values.
pub open spec fn handler_entry(
    h: CollabToolHandler,
    namespace: Option<Seq<char>>,
    namespace_description: Option<Seq<char>>,
    exposure: ToolExposure,
) -> ToolEntryView {
    ToolEntryView {
        kind: handler_kind(h),
        message_route: handler_route(h),
        spawn_options: match h {
            CollabToolHandler::SpawnAgent { options, .. } => Some(options@),
            _ => None,
        },
        wait_options: match h {
            CollabToolHandler::WaitAgent { options } => Some(options),
            _ => None,
        },
        namespace,
        namespace_description,
        exposure,
    }
}

/// A registered tool, as plain values.
pub open spec fn tool_entry(t: RegisteredTool) -> ToolEntryView {
    match t.handler {
        RegisteredHandler::Plain(h) => handler_entry(h, None, None, t.exposure),
        RegisteredHandler::Namespaced(o) => handler_entry(
            o.handler,
            Some(o.namespace@),
            Some(o.namespace_description@),
            t.exposure,
        ),
    }
}

/// The registered tools, as plain values.
pub open spec fn registry_entries(tools: Seq<RegisteredTool>) -> Seq<ToolEntryView> {
    tools.map_values(|t: RegisteredTool| tool_entry(t))
}

impl ToolRegistry {
    pub fn new() -> (r: ToolRegistry)
        ensures
            r.tools@.len() == 0,
    {
        ToolRegistry { tools: Vec::new() }
    }

    /// Registers `handler` for callers that `exposure` admits.
    pub fn register_trusted_with_exposure(&mut self, handler: RegisteredHandler, exposure: ToolExposure)
        ensures
            final(self).tools@ == old(self).tools@.push(RegisteredTool { handler, exposure }),
            registry_entries(final(self).tools@) == registry_entries(old(self).tools@).push(
                tool_entry(RegisteredTool { handler, exposure }),
            ),
    {
        let ghost before = self.tools@;
        self.tools.push(RegisteredTool { handler, exposure });
        proof {
            assert(registry_entries(self.tools@) =~= registry_entries(before).push(
                tool_entry(RegisteredTool { handler, exposure }),
            ));
        }
    }
}

/// `handler` under `namespace` with the canonical description, or plain without one.
pub fn namespaced_handler(handler: CollabToolHandler, namespace: Option<&str>) -> (r:
    RegisteredHandler)
    ensures
        tool_entry(RegisteredTool { handler: r, exposure: ToolExposure::Direct }) == handler_entry(
            handler,
            match namespace {
                Some(n) => Some(n@),
                None => None,
            },
            match namespace {
                Some(_) => Some(canonical_namespace_description()),
                None => None,
            },
            ToolExposure::Direct,
        ),
{
    namespaced_handler_with_description(
        handler,
        namespace,
        "Tools for spawning and managing sub-agents.",
    )
}

/// `handler` under `namespace` with `namespace_description`, or plain without one.
pub fn namespaced_handler_with_description(
    handler: CollabToolHandler,
    namespace: Option<&str>,
    namespace_description: &str,
) -> (r: RegisteredHandler)
    ensures
        match namespace {
            Some(n) => r matches RegisteredHandler::Namespaced(o) && o.handler == handler
                && o.namespace@ == n@ && o.namespace_description@ == namespace_description@,
            None => r == RegisteredHandler::Plain(handler),
        },
        forall|e: ToolExposure|
            tool_entry(RegisteredTool { handler: r, exposure: e }) == handler_entry(
                handler,
                match namespace {
                    Some(n) => Some(n@),
                    None => None,
                },
                match namespace {
                    Some(_) => Some(namespace_description@),
                    None => None,
                },
                e,
            ),
{
    match namespace {
        Some(namespace) => RegisteredHandler::Namespaced(
            NamespaceOverride {
                handler,
                namespace: String::from_str(namespace),
                namespace_description: String::from_str(namespace_description),
            },
        ),
        None => RegisteredHandler::Plain(handler),
    }
}

/// One surface of messaging tools: where it is registered, for whom, on which route.
pub struct MessagingSurface {
    pub namespace: Option<String>,
    pub namespace_description: String,
    pub exposure: ToolExposure,
    pub message_route: AgentMessageRoute,
}

/// The route of the canonical surface: native for an OpenAI session, plaintext otherwise.
pub open spec fn canonical_route(provider_is_openai: bool) -> AgentMessageRoute {
    if provider_is_openai {
        AgentMessageRoute::Native
    } else {
        AgentMessageRoute::ProviderPlaintext
    }
}

/// The exposure of a route's messaging tools.
pub open spec fn messaging_exposure(route: AgentMessageRoute, configured: ToolExposure) -> ToolExposure {
    if route == AgentMessageRoute::Native {
        ToolExposure::DirectModelOnly
    } else {
        configured
    }
}

/// The three handlers of a surface, as plain values.
pub open spec fn surface_entries(
    namespace: Option<Seq<char>>,
    description: Seq<char>,
    exposure: ToolExposure,
    route: AgentMessageRoute,
    spawn: SpawnOptionsView,
) -> Seq<ToolEntryView> {
    let d = match namespace {
        Some(_) => Some(description),
        None => None,
    };
    seq![
        ToolEntryView {
            kind: CollabToolKind::SpawnAgent,
            message_route: Some(route),
            spawn_options: Some(spawn),
            wait_options: None,
            namespace,
            namespace_description: d,
            exposure,
        },
        ToolEntryView {
            kind: CollabToolKind::SendMessage,
            message_route: Some(route),
            spawn_options: None,
            wait_options: None,
            namespace,
            namespace_description: d,
            exposure,
        },
        ToolEntryView {
            kind: CollabToolKind::FollowupTask,
            message_route: Some(route),
            spawn_options: None,
            wait_options: None,
            namespace,
            namespace_description: d,
            exposure,
        },
    ]
}

impl MessagingSurface {
    /// The session's own surface.
    pub fn canonical(namespace: Option<&str>, exposure: ToolExposure, provider_is_openai: bool) -> (r:
        MessagingSurface)
        ensures
            option_chars(r.namespace) == match namespace {
                Some(n) => Some(n@),
                None => None,
            },
            r.namespace_description@ == canonical_namespace_description(),
            r.message_route == canonical_route(provider_is_openai),
            r.exposure == messaging_exposure(r.message_route, exposure),
    {
        let message_route = if provider_is_openai {
            AgentMessageRoute::Native
        } else {
            AgentMessageRoute::ProviderPlaintext
        };
        MessagingSurface {
            namespace: match namespace {
                Some(n) => Some(String::from_str(n)),
                None => None,
            },
            namespace_description: String::from_str("Tools for spawning and managing sub-agents."),
            exposure: message_route.messaging_tool_exposure(exposure),
            message_route,
        }
    }

    /// The surface through which an OpenAI session reaches agents of other providers.
    pub fn external() -> (r: MessagingSurface)
        ensures
            option_chars(r.namespace) == Some(external_agent_namespace()),
            r.namespace_description@ == external_namespace_description(),
            r.exposure == ToolExposure::DirectModelOnly,
            r.message_route == AgentMessageRoute::ExternalPlaintext,
    {
        MessagingSurface {
            namespace: Some(String::from_str("external_agents")),
            namespace_description: String::from_str(
                "Plaintext collaboration tools for authorized agents using non-OpenAI model providers.",
            ),
            exposure: ToolExposure::DirectModelOnly,
            message_route: AgentMessageRoute::ExternalPlaintext,
        }
    }

    /// Registers the surface's spawn, send and follow-up tools, in that order.
    pub fn register(self, registry: &mut ToolRegistry, spawn_options: SpawnAgentToolOptions)
        ensures
            registry_entries(final(registry).tools@) == registry_entries(old(registry).tools@)
                + surface_entries(
                option_chars(self.namespace),
                self.namespace_description@,
                self.exposure,
                self.message_route,
                spawn_options@,
            ),
    {
        let ghost before = registry_entries(registry.tools@);
        let ghost ns = option_chars(self.namespace);
        let MessagingSurface { namespace, namespace_description, exposure, message_route } = self;
        let namespace = match &namespace {
            Some(n) => Some(n.as_str()),
            None => None,
        };
        assert(ns == match namespace {
            Some(n) => Some(n@),
            None => None,
        });
        registry.register_trusted_with_exposure(
            namespaced_handler_with_description(
                CollabToolHandler::SpawnAgent { options: spawn_options, message_route },
                namespace,
                namespace_description.as_str(),
            ),
            exposure,
        );
        registry.register_trusted_with_exposure(
            namespaced_handler_with_description(
                CollabToolHandler::SendMessage { message_route },
                namespace,
                namespace_description.as_str(),
            ),
            exposure,
        );
        registry.register_trusted_with_exposure(
            namespaced_handler_with_description(
                CollabToolHandler::FollowupTask(FollowupTaskHandler::new(message_route)),
                namespace,
                namespace_description.as_str(),
            ),
            exposure,
        );
        proof {
            assert(registry_entries(registry.tools@) =~= before + surface_entries(
                ns,
                namespace_description@,
                exposure,
                message_route,
                spawn_options@,
            ));
        }
    }
}

/// The options of the multi-agent tools, as plain values.
pub struct ToolOptionsView {
    pub namespace: Option<Seq<char>>,
    pub exposure: ToolExposure,
    pub provider_is_openai: bool,
    pub external_bridge_enabled: bool,
    pub spawn: SpawnOptionsView,
    pub wait_agent: Option<WaitAgentTimeoutOptions>,
}

impl<'a> View for MultiAgentV2ToolOptions<'a> {
    type V = ToolOptionsView;

    open spec fn view(&self) -> ToolOptionsView {
        ToolOptionsView {
            namespace: match self.namespace {
                Some(n) => Some(n@),
                None => None,
            },
            exposure: self.exposure,
            provider_is_openai: self.provider_is_openai,
            external_bridge_enabled: self.external_bridge_enabled,
            spawn: self.spawn@,
            wait_agent: self.wait_agent,
        }
    }
}

/// A handler of the canonical namespace that takes no route.
pub open spec fn plain_tool_entry(
    kind: CollabToolKind,
    wait: Option<WaitAgentTimeoutOptions>,
    namespace: Option<Seq<char>>,
    exposure: ToolExposure,
) -> ToolEntryView {
    ToolEntryView {
        kind,
        message_route: None,
        spawn_options: None,
        wait_options: wait,
        namespace,
        namespace_description: match namespace {
            Some(_) => Some(canonical_namespace_description()),
            None => None,
        },
        exposure,
    }
}

/// The tools that a session registers, in order: its canonical surface; the
/// external surface when the session uses OpenAI and the external bridge is
/// enabled; the wait tool when it has timeouts; the interrupt and list tools.
pub open spec fn v2_tool_plan(o: ToolOptionsView) -> Seq<ToolEntryView> {
    let route = canonical_route(o.provider_is_openai);
    let canonical = surface_entries(
        o.namespace,
        canonical_namespace_description(),
        messaging_exposure(route, o.exposure),
        route,
        o.spawn,
    );
    let external = if o.provider_is_openai && o.external_bridge_enabled {
        surface_entries(
            Some(external_agent_namespace()),
            external_namespace_description(),
            ToolExposure::DirectModelOnly,
            AgentMessageRoute::ExternalPlaintext,
            external_spawn_options(o.spawn),
        )
    } else {
        Seq::empty()
    };
    let wait = match o.wait_agent {
        Some(w) => seq![plain_tool_entry(CollabToolKind::WaitAgent, Some(w), o.namespace, o.exposure)],
        None => Seq::empty(),
    };
    canonical + external + wait + seq![
        plain_tool_entry(CollabToolKind::InterruptAgent, None, o.namespace, o.exposure),
        plain_tool_entry(CollabToolKind::ListAgents, None, o.namespace, o.exposure),
    ]
}

/// Registers the multi-agent tools of a session.
#[verifier::spinoff_prover]
#[verifier::rlimit(50)]
pub fn register_multi_agent_v2_tools(registry: &mut ToolRegistry, options: MultiAgentV2ToolOptions<'_>)
    ensures
        registry_entries(final(registry).tools@) == registry_entries(old(registry).tools@)
            + v2_tool_plan(options@),
{
    let ghost o = options@;
    let ghost before = registry_entries(registry.tools@);
    let MultiAgentV2ToolOptions {
        namespace,
        exposure,
        provider_is_openai,
        external_bridge_enabled,
        spawn,
        wait_agent,
    } = options;
    let external_spawn = if provider_is_openai && external_bridge_enabled {
        let defaults = SpawnAgentToolOptions::default();
        let e = SpawnAgentToolOptions {
            hide_agent_type_model_reasoning: spawn.hide_agent_type_model_reasoning,
            multi_agent_version: spawn.multi_agent_version,
            ..defaults
        };
        proof {
            assert(e@.available_models =~= Seq::<Seq<char>>::empty());
            assert(e@.agent_type_description =~= Seq::<char>::empty());
        }
        Some(e)
    } else {
        None
    };
    MessagingSurface::canonical(namespace, exposure, provider_is_openai).register(registry, spawn);
    let ghost after_canonical = registry_entries(registry.tools@);
    if let Some(external_spawn) = external_spawn {
        MessagingSurface::external().register(registry, external_spawn);
    }
    let ghost after_external = registry_entries(registry.tools@);
    if let Some(wait_agent) = wait_agent {
        registry.register_trusted_with_exposure(
            namespaced_handler(CollabToolHandler::WaitAgent { options: wait_agent }, namespace),
            exposure,
        );
    }
    let ghost after_wait = registry_entries(registry.tools@);
    registry.register_trusted_with_exposure(
        namespaced_handler(CollabToolHandler::InterruptAgent, namespace),
        exposure,
    );
    registry.register_trusted_with_exposure(
        namespaced_handler(CollabToolHandler::ListAgents, namespace),
        exposure,
    );
    proof {
        assert(registry_entries(registry.tools@) =~= before + v2_tool_plan(o));
    }
}

proof fn lemma_plan_index(o: ToolOptionsView, i: int)
    requires
        0 <= i < v2_tool_plan(o).len(),
    ensures
        ({
            let route = canonical_route(o.provider_is_openai);
            let canonical = surface_entries(
                o.namespace,
                canonical_namespace_description(),
                messaging_exposure(route, o.exposure),
                route,
                o.spawn,
            );
            let has_external = o.provider_is_openai && o.external_bridge_enabled;
            let ext_len: int = if has_external { 3 } else { 0 };
            let e = v2_tool_plan(o)[i];
            &&& i < 3 ==> e == canonical[i]
            &&& (3 <= i < 3 + ext_len) ==> e == surface_entries(
                Some(external_agent_namespace()),
                external_namespace_description(),
                ToolExposure::DirectModelOnly,
                AgentMessageRoute::ExternalPlaintext,
                external_spawn_options(o.spawn),
            )[i - 3]
            &&& i >= 3 + ext_len ==> e.message_route is None
        }),
{
}

/// The external surface is registered exactly when the session uses the OpenAI
/// provider and the external bridge is enabled.
pub proof fn law_external_surface_needs_openai_and_bridge(o: ToolOptionsView)
    ensures
        (exists|i: int|
            0 <= i < v2_tool_plan(o).len() && #[trigger] v2_tool_plan(o)[i].message_route == Some(
                AgentMessageRoute::ExternalPlaintext,
            )) <==> (o.provider_is_openai && o.external_bridge_enabled),
{
    if o.provider_is_openai && o.external_bridge_enabled {
        lemma_plan_index(o, 3);
        assert(v2_tool_plan(o)[3].message_route == Some(AgentMessageRoute::ExternalPlaintext));
    } else {
        assert forall|i: int| 0 <= i < v2_tool_plan(o).len() implies #[trigger] v2_tool_plan(
            o,
        )[i].message_route != Some(AgentMessageRoute::ExternalPlaintext) by {
            lemma_plan_index(o, i);
        }
    }
}

/// Native messaging tools are offered to the model only, never to Code Mode; the
/// external surface's tools live in the `external_agents` namespace, are offered
/// to the model only, and spawn with nothing of the canonical spawn options but
/// their visibility and version settings.
pub proof fn law_surface_exposure(o: ToolOptionsView, i: int)
    requires
        0 <= i < v2_tool_plan(o).len(),
    ensures
        v2_tool_plan(o)[i].message_route == Some(AgentMessageRoute::Native) ==> v2_tool_plan(
            o,
        )[i].exposure == ToolExposure::DirectModelOnly,
        v2_tool_plan(o)[i].message_route == Some(AgentMessageRoute::ExternalPlaintext) ==> {
            &&& v2_tool_plan(o)[i].namespace == Some(external_agent_namespace())
            &&& v2_tool_plan(o)[i].exposure == ToolExposure::DirectModelOnly
            &&& v2_tool_plan(o)[i].kind == CollabToolKind::SpawnAgent ==> v2_tool_plan(
                o,
            )[i].spawn_options == Some(external_spawn_options(o.spawn))
        },
{
    lemma_plan_index(o, i);
}

/// The tools after the messaging surfaces: the wait tool when there are timeouts,
/// then the interrupt and list tools.
proof fn lemma_plan_tail(o: ToolOptionsView, i: int)
    requires
        0 <= i < v2_tool_plan(o).len(),
        i >= 3 + (if o.provider_is_openai && o.external_bridge_enabled { 3int } else { 0int }),
    ensures
        ({
            let k = i - 3 - (if o.provider_is_openai && o.external_bridge_enabled { 3int } else { 0int });
            let wait: Seq<ToolEntryView> = if o.wait_agent is Some {
                seq![plain_tool_entry(CollabToolKind::WaitAgent, o.wait_agent, o.namespace, o.exposure)]
            } else {
                Seq::empty()
            };
            let tail = wait + seq![
                plain_tool_entry(CollabToolKind::InterruptAgent, None, o.namespace, o.exposure),
                plain_tool_entry(CollabToolKind::ListAgents, None, o.namespace, o.exposure),
            ];
            &&& 0 <= k < tail.len()
            &&& v2_tool_plan(o)[i] == tail[k]
        }),
{
}

/// The wait tool is registered exactly when wait timeouts are given, whatever the
/// session's provider and the external bridge, and it carries those timeouts, the
/// configured namespace and the configured exposure. The interrupt and list tools
/// are registered in every case.
pub proof fn law_wait_tool_follows_its_timeouts(o: ToolOptionsView)
    ensures
        (exists|i: int|
            0 <= i < v2_tool_plan(o).len() && #[trigger] v2_tool_plan(o)[i].kind
                == CollabToolKind::WaitAgent) <==> o.wait_agent is Some,
        forall|i: int|
            0 <= i < v2_tool_plan(o).len() && #[trigger] v2_tool_plan(o)[i].kind
                == CollabToolKind::WaitAgent ==> {
                &&& v2_tool_plan(o)[i].wait_options == o.wait_agent
                &&& v2_tool_plan(o)[i].namespace == o.namespace
                &&& v2_tool_plan(o)[i].exposure == o.exposure
            },
        forall|i: int|
            0 <= i < v2_tool_plan(o).len() && (#[trigger] v2_tool_plan(o)[i].kind
                == CollabToolKind::InterruptAgent || v2_tool_plan(o)[i].kind
                == CollabToolKind::ListAgents) ==> {
                &&& v2_tool_plan(o)[i].wait_options is None
                &&& v2_tool_plan(o)[i].namespace == o.namespace
                &&& v2_tool_plan(o)[i].exposure == o.exposure
            },
        exists|i: int|
            0 <= i < v2_tool_plan(o).len() && #[trigger] v2_tool_plan(o)[i].kind
                == CollabToolKind::InterruptAgent,
        exists|i: int|
            0 <= i < v2_tool_plan(o).len() && #[trigger] v2_tool_plan(o)[i].kind
                == CollabToolKind::ListAgents,
{
    let ext_len: int = if o.provider_is_openai && o.external_bridge_enabled { 3 } else { 0 };
    let wait_len: int = if o.wait_agent is Some { 1 } else { 0 };
    let n = v2_tool_plan(o).len();
    assert(n == 3 + ext_len + wait_len + 2);
    assert forall|i: int|
        0 <= i < n && #[trigger] v2_tool_plan(o)[i].kind == CollabToolKind::WaitAgent implies {
        &&& o.wait_agent is Some
        &&& i == 3 + ext_len
        &&& v2_tool_plan(o)[i].wait_options == o.wait_agent
        &&& v2_tool_plan(o)[i].namespace == o.namespace
        &&& v2_tool_plan(o)[i].exposure == o.exposure
    } by {
        lemma_plan_index(o, i);
        if i >= 3 + ext_len {
            lemma_plan_tail(o, i);
        }
    }
    assert forall|i: int|
        0 <= i < n && (#[trigger] v2_tool_plan(o)[i].kind == CollabToolKind::InterruptAgent
            || v2_tool_plan(o)[i].kind == CollabToolKind::ListAgents) implies {
        &&& v2_tool_plan(o)[i].wait_options is None
        &&& v2_tool_plan(o)[i].namespace == o.namespace
        &&& v2_tool_plan(o)[i].exposure == o.exposure
    } by {
        lemma_plan_index(o, i);
        if i >= 3 + ext_len {
            lemma_plan_tail(o, i);
        }
    }
    if o.wait_agent is Some {
        lemma_plan_tail(o, 3 + ext_len);
        assert(v2_tool_plan(o)[3 + ext_len].kind == CollabToolKind::WaitAgent);
    }
    lemma_plan_tail(o, n - 2);
    lemma_plan_tail(o, n - 1);
    assert(v2_tool_plan(o)[n - 2].kind == CollabToolKind::InterruptAgent);
    assert(v2_tool_plan(o)[n - 1].kind == CollabToolKind::ListAgents);
}

} // verus!
