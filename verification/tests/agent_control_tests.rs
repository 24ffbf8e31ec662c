use codex_subagents::agent_control::model_provider_baseline_for_parent;
use codex_subagents::agent_control::restore_persisted_agent_model;
use codex_subagents::agent_control::restore_persisted_agent_model_provider;
use codex_subagents::agent_control::validate_history_fork_model_provider;
use codex_subagents::agent_control::AgentControl;
use codex_subagents::agent_control::CodexErr;
use codex_subagents::agent_control::LiveThread;
use codex_subagents::agent_control::StoredThread;
use codex_subagents::agent_control::ThreadManagerState;
use codex_subagents::config::AgentRoles;
use codex_subagents::config::Config;
use codex_subagents::config::ConfigEntry;
use codex_subagents::config::ConfigLayerStack;
use codex_subagents::config::ConfigValue;
use codex_subagents::model_provider_info::ModelProviderInfo;
use codex_subagents::model_provider_info::ModelProviders;
use codex_subagents::model_provider_info::WireApi;
use codex_subagents::protocol::SessionSource;
use codex_subagents::protocol::SpawnAgentForkMode;
use codex_subagents::protocol::SubAgentSource;
use codex_subagents::protocol::ThreadId;

fn provider(name: &str) -> ModelProviderInfo {
    ModelProviderInfo {
        name: name.to_string(),
        base_url: None,
        experimental_bearer_token: None,
        wire_api: WireApi::Responses,
        request_max_retries: None,
        stream_max_retries: None,
    }
}

fn allowlist(ids: &[&str]) -> ConfigValue {
    ConfigValue::Table(vec![ConfigEntry {
        key: "subagent_model_provider_allowlist".to_string(),
        value: ConfigValue::Array(ids.iter().map(|id| ConfigValue::String(id.to_string())).collect()),
    }])
}

/// An OpenAI session whose user allows the `custom` provider, which it defines.
fn parent_config() -> Config {
    let mut model_providers = ModelProviders::new();
    model_providers.insert("openai".to_string(), provider("OpenAI"));
    model_providers.insert("custom".to_string(), provider("Custom"));
    Config {
        model: Some("gpt-5.5".to_string()),
        model_provider_id: "openai".to_string(),
        model_provider: provider("OpenAI"),
        model_providers,
        agent_roles: AgentRoles::new(),
        config_layer_stack: ConfigLayerStack::new().with_user_config("config.toml", allowlist(&["custom"])),
        model_catalog: None,
    }
}

fn custom_config() -> Config {
    let mut config = parent_config();
    config.model_provider_id = "custom".to_string();
    config.model_provider = provider("Custom");
    config
}

fn thread(id: u64) -> ThreadId {
    ThreadId { value: id }
}

fn spawned_by(parent: u64) -> SessionSource {
    SessionSource::SubAgent(SubAgentSource::ThreadSpawn {
        parent_thread_id: thread(parent),
        depth: 1,
        agent_path: None,
    })
}

#[test]
fn live_agent_reports_its_own_provider() {
    let control = AgentControl {
        state: Some(ThreadManagerState {
            live_threads: vec![
                LiveThread { thread_id: thread(1), config: parent_config() },
                LiveThread { thread_id: thread(2), config: custom_config() },
            ],
            stored_threads: vec![],
        }),
    };
    assert_eq!(control.agent_uses_openai_model_provider(thread(1), &parent_config()), Ok(true));
    assert_eq!(control.agent_uses_openai_model_provider(thread(2), &parent_config()), Ok(false));
    assert_eq!(
        control.agent_uses_openai_model_provider(thread(3), &parent_config()),
        Err(CodexErr::ThreadNotFound(thread(3)))
    );
}

#[test]
fn stored_agent_resolves_through_its_parent_baseline() {
    let state = ThreadManagerState {
        live_threads: vec![LiveThread { thread_id: thread(1), config: parent_config() }],
        stored_threads: vec![
            StoredThread {
                thread_id: thread(2),
                parent_thread_id: None,
                source: spawned_by(1),
                model_provider: "custom".to_string(),
                model: Some("@preset/external-model".to_string()),
            },
            StoredThread {
                thread_id: thread(3),
                parent_thread_id: Some(thread(1)),
                source: SessionSource::Exec,
                model_provider: "openai".to_string(),
                model: None,
            },
            StoredThread {
                thread_id: thread(4),
                parent_thread_id: Some(thread(1)),
                source: SessionSource::Exec,
                model_provider: "unlisted".to_string(),
                model: None,
            },
        ],
    };
    let control = AgentControl { state: Some(state) };
    assert_eq!(control.agent_uses_openai_model_provider(thread(2), &parent_config()), Ok(false));
    assert_eq!(control.agent_uses_openai_model_provider(thread(3), &parent_config()), Ok(true));
    assert_eq!(
        control.agent_uses_openai_model_provider(thread(4), &parent_config()),
        Err(CodexErr::InvalidRequest(
            "cannot resume subagent with model provider `unlisted`: the provider is not in the current user-owned subagent allowlist"
                .to_string()
        ))
    );
}

#[test]
fn missing_thread_manager_is_reported() {
    let control = AgentControl { state: None };
    assert_eq!(
        control.agent_uses_openai_model_provider(thread(1), &parent_config()),
        Err(CodexErr::InternalAgentDied)
    );
}

#[test]
fn parent_baseline_comes_from_the_live_parent_or_its_record() {
    let state = ThreadManagerState {
        live_threads: vec![LiveThread { thread_id: thread(1), config: custom_config() }],
        stored_threads: vec![
            StoredThread {
                thread_id: thread(5),
                parent_thread_id: None,
                source: SessionSource::Cli,
                model_provider: "custom".to_string(),
                model: None,
            },
            StoredThread {
                thread_id: thread(6),
                parent_thread_id: None,
                source: SessionSource::Cli,
                model_provider: "nowhere".to_string(),
                model: None,
            },
        ],
    };
    let config = parent_config();

    let own = model_provider_baseline_for_parent(&state, &config, None).expect("own baseline");
    assert_eq!(own.id, "openai");

    let live = model_provider_baseline_for_parent(&state, &config, Some(thread(1)))
        .expect("live parent");
    assert_eq!(live.id, "custom");
    assert_eq!(live.provider, provider("Custom"));

    let recorded = model_provider_baseline_for_parent(&state, &config, Some(thread(5)))
        .expect("recorded parent");
    assert_eq!(recorded.id, "custom");

    let Err(error) = model_provider_baseline_for_parent(&state, &config, Some(thread(6))) else {
        panic!("an unlisted recorded provider cannot be resolved");
    };
    assert_eq!(
        error,
        CodexErr::InvalidRequest(
            "cannot resolve the recorded parent model provider: the provider is not in the current user-owned subagent allowlist"
                .to_string()
        )
    );
    let Err(error) = model_provider_baseline_for_parent(&state, &config, Some(thread(7))) else {
        panic!("an unknown parent");
    };
    assert_eq!(error, CodexErr::ThreadNotFound(thread(7)));
}

#[test]
fn resume_restores_an_allowed_provider_and_reports_a_refused_one() {
    let mut config = parent_config();
    let baseline = config.subagent_model_provider_baseline();
    restore_persisted_agent_model_provider(&mut config, &baseline, "custom").expect("allowed");
    assert_eq!(config.model_provider_id, "custom");
    assert_eq!(config.model_provider, provider("Custom"));

    let mut config = parent_config();
    let error = restore_persisted_agent_model_provider(&mut config, &baseline, "other")
        .expect_err("not allowed");
    assert_eq!(
        error,
        CodexErr::InvalidRequest(
            "cannot resume subagent with model provider `other`: the provider is not in the current user-owned subagent allowlist"
                .to_string()
        )
    );
    assert_eq!(config, parent_config());
}

#[test]
fn resume_restores_a_recorded_model_only() {
    let mut config = parent_config();
    restore_persisted_agent_model(&mut config, None);
    assert_eq!(config.model, Some("gpt-5.5".to_string()));
    restore_persisted_agent_model(&mut config, Some("@preset/external-model".to_string()));
    assert_eq!(config.model, Some("@preset/external-model".to_string()));
}

#[test]
fn history_forks_require_the_parents_exact_provider() {
    let state = ThreadManagerState {
        live_threads: vec![LiveThread { thread_id: thread(1), config: parent_config() }],
        stored_threads: vec![],
    };
    let fork = SpawnAgentForkMode::FullHistory;
    let child_source = spawned_by(1);

    assert_eq!(
        validate_history_fork_model_provider(&state, &parent_config(), Some(&child_source), Some(&fork)),
        Ok(())
    );
    assert_eq!(
        validate_history_fork_model_provider(&state, &custom_config(), Some(&child_source), None),
        Ok(())
    );
    assert_eq!(
        validate_history_fork_model_provider(&state, &custom_config(), Some(&SessionSource::Cli), Some(&fork)),
        Ok(())
    );
    assert_eq!(
        validate_history_fork_model_provider(&state, &custom_config(), Some(&child_source), Some(&fork)),
        Err(CodexErr::InvalidRequest(
            "history forks require the child to use the parent's exact model provider configuration; use fork_turns=\"none\" for a different provider"
                .to_string()
        ))
    );
    assert_eq!(
        validate_history_fork_model_provider(&state, &parent_config(), Some(&spawned_by(9)), Some(&fork)),
        Err(CodexErr::ThreadNotFound(thread(9)))
    );
}

#[test]
fn custom_parent_routes_fresh_child_to_allowlisted_openai_provider() {
    let mut parent = custom_config();
    parent.config_layer_stack = parent
        .config_layer_stack
        .with_user_config("config.toml", allowlist(&["openai"]));
    let baseline = parent.subagent_model_provider_baseline();
    assert_eq!(baseline.id, "custom");

    let mut child = custom_config();
    child.config_layer_stack = child
        .config_layer_stack
        .with_user_config("config.toml", allowlist(&["openai"]));
    child.model_catalog = Some("custom-models.json".to_string());
    child
        .select_subagent_model_provider(&baseline, "openai")
        .expect("the user allows the OpenAI provider");
    assert_eq!(child.model_provider_id, "openai");
    assert!(child.model_provider.is_openai());
    assert_eq!(child.model_catalog, None);
}

#[test]
fn custom_child_routes_fresh_grandchild_to_second_custom_provider() {
    let mut child = custom_config();
    child.model_providers.insert("second-custom".to_string(), provider("Second"));
    child.config_layer_stack = child
        .config_layer_stack
        .with_user_config("config.toml", allowlist(&["custom", "second-custom"]));
    let baseline = child.subagent_model_provider_baseline();
    let mut grandchild = custom_config();
    grandchild.model_providers.insert("second-custom".to_string(), provider("Second"));
    grandchild.config_layer_stack = grandchild
        .config_layer_stack
        .with_user_config("config.toml", allowlist(&["custom", "second-custom"]));
    grandchild
        .select_subagent_model_provider(&baseline, "second-custom")
        .expect("allowlisted second provider");
    assert_eq!(grandchild.model_provider_id, "second-custom");
    assert_eq!(grandchild.model_provider, provider("Second"));
    assert!(!grandchild.model_provider.is_openai());
}
