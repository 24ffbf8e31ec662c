use codex_subagents::multi_agent_message::create_followup_task_tool;
use codex_subagents::multi_agent_message::create_followup_task_tool_for_route;
use codex_subagents::multi_agent_message::create_send_message_tool;
use codex_subagents::multi_agent_message::create_send_message_tool_for_route;
use codex_subagents::multi_agent_message::message_required_fields;
use codex_subagents::multi_agent_message::plaintext_message_description;
use codex_subagents::multi_agent_message::AgentMessageRoute;
use codex_subagents::surface::namespaced_handler;
use codex_subagents::surface::register_multi_agent_v2_tools;
use codex_subagents::surface::CollabToolHandler;
use codex_subagents::surface::MultiAgentV2ToolOptions;
use codex_subagents::surface::MultiAgentVersion;
use codex_subagents::surface::RegisteredHandler;
use codex_subagents::surface::SpawnAgentToolOptions;
use codex_subagents::surface::ToolRegistry;
use codex_subagents::surface::WaitAgentTimeoutOptions;
use codex_subagents::tool_context::JsonSchema;
use codex_subagents::tool_context::ResponsesApiNamespaceTool;
use codex_subagents::tool_context::ToolExposure;
use codex_subagents::tool_context::ToolSpec;

fn message_schema(spec: &ToolSpec) -> (Option<String>, bool) {
    let ToolSpec::Function(tool) = spec else {
        panic!("expected a function tool");
    };
    let JsonSchema::Object { properties, .. } = &tool.parameters else {
        panic!("expected an object schema");
    };
    let message = properties
        .entries
        .iter()
        .find(|p| p.name == "message")
        .expect("a message argument");
    let JsonSchema::String { description, encrypted } = &message.schema else {
        panic!("expected a string schema");
    };
    (description.clone(), *encrypted)
}

#[test]
fn message_tools_describe_the_route() {
    let native = create_send_message_tool();
    assert_eq!(
        message_schema(&native),
        (Some("Message text to queue on the target agent.".to_string()), true)
    );
    let provider = create_send_message_tool_for_route(AgentMessageRoute::ProviderPlaintext);
    assert_eq!(
        message_schema(&provider),
        (
            Some("Message text to queue on the target agent. Maximum size: 8192 UTF-8 bytes.".to_string()),
            false
        )
    );
    let external = create_followup_task_tool_for_route(AgentMessageRoute::ExternalPlaintext);
    assert_eq!(
        message_schema(&external),
        (
            Some("Message text to send to the target agent. The target must use a configured non-OpenAI model provider. Maximum size: 8192 UTF-8 bytes.".to_string()),
            false
        )
    );
    let ToolSpec::Function(tool) = create_followup_task_tool() else {
        panic!("expected a function tool");
    };
    assert_eq!(tool.name, "followup_task");
    assert!(!tool.strict);
    let JsonSchema::Object { properties, required, additional_properties } = tool.parameters else {
        panic!("expected an object schema");
    };
    assert_eq!(required, Some(vec!["target".to_string(), "message".to_string()]));
    assert_eq!(additional_properties, Some(false));
    assert_eq!(properties.entries.len(), 2);
    assert_eq!(
        plaintext_message_description("Text."),
        "Text. Maximum size: 8192 UTF-8 bytes."
    );
    assert_eq!(
        message_required_fields("target"),
        Some(vec!["target".to_string(), "message".to_string()])
    );
}

fn spawn_options() -> SpawnAgentToolOptions {
    SpawnAgentToolOptions {
        available_models: vec!["gpt-5.5".to_string()],
        agent_type_description: "roles".to_string(),
        hide_agent_type_model_reasoning: true,
        multi_agent_version: MultiAgentVersion::V2,
    }
}

fn summary(registry: &ToolRegistry) -> Vec<(String, Option<String>, ToolExposure)> {
    registry
        .tools
        .iter()
        .map(|t| match &t.handler {
            RegisteredHandler::Plain(h) => (h.tool_name().name, None, t.exposure),
            RegisteredHandler::Namespaced(o) => {
                (o.handler.tool_name().name, Some(o.namespace.clone()), t.exposure)
            }
        })
        .collect()
}

#[test]
fn openai_session_with_bridge_registers_both_surfaces() {
    let mut registry = ToolRegistry::new();
    register_multi_agent_v2_tools(
        &mut registry,
        MultiAgentV2ToolOptions {
            namespace: Some("collaboration"),
            exposure: ToolExposure::Direct,
            provider_is_openai: true,
            external_bridge_enabled: true,
            spawn: spawn_options(),
            wait_agent: Some(WaitAgentTimeoutOptions {
                default_timeout_ms: 1000,
                min_timeout_ms: 10,
                max_timeout_ms: 60000,
            }),
        },
    );
    let c = Some("collaboration".to_string());
    let e = Some("external_agents".to_string());
    assert_eq!(
        summary(&registry),
        vec![
            ("spawn_agent".to_string(), c.clone(), ToolExposure::DirectModelOnly),
            ("send_message".to_string(), c.clone(), ToolExposure::DirectModelOnly),
            ("followup_task".to_string(), c.clone(), ToolExposure::DirectModelOnly),
            ("spawn_agent".to_string(), e.clone(), ToolExposure::DirectModelOnly),
            ("send_message".to_string(), e.clone(), ToolExposure::DirectModelOnly),
            ("followup_task".to_string(), e.clone(), ToolExposure::DirectModelOnly),
            ("wait_agent".to_string(), c.clone(), ToolExposure::Direct),
            ("interrupt_agent".to_string(), c.clone(), ToolExposure::Direct),
            ("list_agents".to_string(), c.clone(), ToolExposure::Direct),
        ]
    );
    let RegisteredHandler::Namespaced(external_spawn) = &registry.tools[3].handler else {
        panic!("namespaced");
    };
    assert_eq!(
        external_spawn.namespace_description,
        "Plaintext collaboration tools for authorized agents using non-OpenAI model providers."
    );
    let CollabToolHandler::SpawnAgent { options, message_route } = &external_spawn.handler else {
        panic!("spawn handler");
    };
    assert_eq!(*message_route, AgentMessageRoute::ExternalPlaintext);
    assert!(options.available_models.is_empty());
    assert!(options.agent_type_description.is_empty());
    assert!(options.hide_agent_type_model_reasoning);
    assert_eq!(options.multi_agent_version, MultiAgentVersion::V2);
    let spec = external_spawn_followup_spec(&registry);
    let ToolSpec::Namespace(ns) = spec else {
        panic!("namespaced spec");
    };
    assert_eq!(ns.name, "external_agents");
    let ResponsesApiNamespaceTool::Function(tool) = &ns.tools[0];
    assert_eq!(tool.name, "followup_task");
}

fn external_spawn_followup_spec(registry: &ToolRegistry) -> ToolSpec {
    let RegisteredHandler::Namespaced(o) = &registry.tools[5].handler else {
        panic!("namespaced");
    };
    o.spec().expect("followup spec")
}

#[test]
fn custom_provider_session_uses_plaintext_surface_only() {
    let mut registry = ToolRegistry::new();
    register_multi_agent_v2_tools(
        &mut registry,
        MultiAgentV2ToolOptions {
            namespace: None,
            exposure: ToolExposure::Direct,
            provider_is_openai: false,
            external_bridge_enabled: true,
            spawn: spawn_options(),
            wait_agent: None,
        },
    );
    assert_eq!(
        summary(&registry),
        vec![
            ("spawn_agent".to_string(), None, ToolExposure::Direct),
            ("send_message".to_string(), None, ToolExposure::Direct),
            ("followup_task".to_string(), None, ToolExposure::Direct),
            ("interrupt_agent".to_string(), None, ToolExposure::Direct),
            ("list_agents".to_string(), None, ToolExposure::Direct),
        ]
    );
    let RegisteredHandler::Plain(CollabToolHandler::SendMessage { message_route }) =
        &registry.tools[1].handler
    else {
        panic!("plain send handler");
    };
    assert_eq!(*message_route, AgentMessageRoute::ProviderPlaintext);
}

#[test]
fn openai_session_without_bridge_has_no_external_surface() {
    let mut registry = ToolRegistry::new();
    register_multi_agent_v2_tools(
        &mut registry,
        MultiAgentV2ToolOptions {
            namespace: Some("collaboration"),
            exposure: ToolExposure::Direct,
            provider_is_openai: true,
            external_bridge_enabled: false,
            spawn: spawn_options(),
            wait_agent: None,
        },
    );
    assert_eq!(registry.tools.len(), 5);
    assert!(summary(&registry)
        .iter()
        .all(|(_, ns, _)| ns.as_deref() == Some("collaboration")));
}

#[test]
fn namespace_override_wraps_function_specs() {
    let RegisteredHandler::Namespaced(o) =
        namespaced_handler(CollabToolHandler::ListAgents, Some("collaboration"))
    else {
        panic!("namespaced");
    };
    assert_eq!(o.namespace_description, "Tools for spawning and managing sub-agents.");
    assert!(o.spec().is_none());
    let name = o.tool_name();
    assert_eq!(name.namespace, Some("collaboration".to_string()));
    assert_eq!(name.name, "list_agents");
    let wrapped = o.wrap_spec(create_send_message_tool());
    let ToolSpec::Namespace(ns) = wrapped else {
        panic!("namespace");
    };
    assert_eq!(ns.description, "Tools for spawning and managing sub-agents.");
    assert_eq!(ns.tools.len(), 1);
    assert!(matches!(
        namespaced_handler(CollabToolHandler::ListAgents, None),
        RegisteredHandler::Plain(CollabToolHandler::ListAgents)
    ));
}

#[test]
fn send_message_tool_takes_exactly_target_and_message() {
    for route in [
        AgentMessageRoute::Native,
        AgentMessageRoute::ProviderPlaintext,
        AgentMessageRoute::ExternalPlaintext,
    ] {
        let ToolSpec::Function(tool) = create_send_message_tool_for_route(route) else {
            panic!("expected a function tool");
        };
        assert_eq!(tool.name, "send_message");
        let JsonSchema::Object { properties, additional_properties, .. } = tool.parameters else {
            panic!("expected an object schema");
        };
        assert_eq!(additional_properties, Some(false));
        let names: Vec<String> = properties.entries.iter().map(|p| p.name.clone()).collect();
        assert_eq!(names, vec!["target".to_string(), "message".to_string()]);
    }
}
