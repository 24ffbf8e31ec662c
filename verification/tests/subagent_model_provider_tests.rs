use codex_subagents::config::AgentRoleConfig;
use codex_subagents::config::AgentRoles;
use codex_subagents::config::Config;
use codex_subagents::config::ConfigEntry;
use codex_subagents::config::ConfigLayer;
use codex_subagents::config::ConfigLayerSource;
use codex_subagents::config::ConfigLayerStack;
use codex_subagents::config::ConfigValue;
use codex_subagents::model_provider_info::ModelProviderInfo;
use codex_subagents::model_provider_info::ModelProviders;
use codex_subagents::model_provider_info::WireApi;
use codex_subagents::subagent_model_provider::ProviderSelectionError;
use codex_subagents::subagent_model_provider::SubagentModelProviderBaseline;

const CONFIG_TOML_FILE: &str = "config.toml";
const CODEX_HOME: &str = "/codex-home";

fn config_value(value: toml::Value) -> ConfigValue {
    match value {
        toml::Value::String(s) => ConfigValue::String(s),
        toml::Value::Integer(i) => ConfigValue::Integer(i),
        toml::Value::Boolean(b) => ConfigValue::Boolean(b),
        toml::Value::Array(items) => ConfigValue::Array(items.into_iter().map(config_value).collect()),
        toml::Value::Table(table) => ConfigValue::Table(
            table
                .into_iter()
                .map(|(key, value)| ConfigEntry { key, value: config_value(value) })
                .collect(),
        ),
        toml::Value::Float(_) | toml::Value::Datetime(_) => ConfigValue::OtherScalar,
    }
}

fn toml_config(text: &str) -> Result<ConfigValue, toml::de::Error> {
    let table: toml::Table = toml::from_str(text)?;
    Ok(config_value(toml::Value::Table(table)))
}

fn provider(name: &str, base_url: Option<&str>) -> ModelProviderInfo {
    ModelProviderInfo {
        name: name.to_string(),
        base_url: base_url.map(str::to_string),
        experimental_bearer_token: None,
        wire_api: WireApi::Responses,
        request_max_retries: None,
        stream_max_retries: None,
    }
}

fn test_config() -> Config {
    let mut model_providers = ModelProviders::new();
    model_providers.insert("openai".to_string(), provider("OpenAI", None));
    Config {
        model: Some("gpt-5.5".to_string()),
        model_provider_id: "openai".to_string(),
        model_provider: provider("OpenAI", None),
        model_providers,
        agent_roles: AgentRoles::new(),
        config_layer_stack: ConfigLayerStack::new(),
        model_catalog: Some("bundled".to_string()),
    }
}

fn config_with_base_allowlist() -> Config {
    let mut config = test_config();
    config.config_layer_stack = config.config_layer_stack.with_user_config(
        &format!("{CODEX_HOME}/{CONFIG_TOML_FILE}"),
        toml_config("subagent_model_provider_allowlist = [\"external\"]")
            .expect("valid base user config"),
    );
    config
}

fn with_external_provider(mut config: Config) -> Config {
    config
        .model_providers
        .insert("external".to_string(), provider("Ollama", Some("http://localhost:11434/v1")));
    config
}

#[test]
fn user_allowlist_follows_profile_precedence_without_falling_back() {
    let mut config = config_with_base_allowlist();
    let profile = "worker";
    let profile_path = format!("{CODEX_HOME}/profiles/worker.toml");

    config.config_layer_stack = config.config_layer_stack.with_user_config_profile(
        &profile_path,
        Some(profile),
        toml_config("model = \"gpt-5.6-sol\"").expect("valid profile user config"),
    );
    assert!(config.user_allows_subagent_model_provider("external"));

    config.config_layer_stack = config.config_layer_stack.with_user_config_profile(
        &profile_path,
        Some(profile),
        toml_config("subagent_model_provider_allowlist = []").expect("valid profile user config"),
    );
    assert!(!config.user_allows_subagent_model_provider("external"));

    config.config_layer_stack = config.config_layer_stack.with_user_config_profile(
        &profile_path,
        Some(profile),
        toml_config("subagent_model_provider_allowlist = \"invalid\"")
            .expect("syntactically valid profile user config"),
    );
    assert!(!config.user_allows_subagent_model_provider("external"));
}

#[test]
fn baseline_provider_resolves_without_an_allowlist() {
    let config = test_config();
    let baseline = config.subagent_model_provider_baseline();
    let resolved = baseline.resolve(&config, "openai").expect("the baseline provider");
    assert_eq!(resolved, provider("OpenAI", None));
}

#[test]
fn unlisted_provider_is_refused_and_config_is_unchanged() {
    let mut config = with_external_provider(test_config());
    let baseline = config.subagent_model_provider_baseline();
    let error = config
        .select_subagent_model_provider(&baseline, "external")
        .expect_err("the provider is not allowlisted");
    assert_eq!(error, ProviderSelectionError::NotAllowlisted);
    assert_eq!(
        error.message(),
        "the provider is not in the current user-owned subagent allowlist"
    );
    assert_eq!(config.model_provider_id, "openai");
    assert_eq!(config.model_catalog, Some("bundled".to_string()));
}

#[test]
fn allowlisted_but_undefined_provider_is_refused() {
    let config = config_with_base_allowlist();
    let baseline = config.subagent_model_provider_baseline();
    let error = baseline
        .resolve(&config, "external")
        .expect_err("the provider is not defined");
    assert_eq!(error, ProviderSelectionError::NotConfigured);
    assert_eq!(
        error.message(),
        "the provider is not configured by the current parent"
    );
}

#[test]
fn selecting_a_new_provider_drops_the_catalog_and_reselecting_keeps_it() {
    let mut config = with_external_provider(config_with_base_allowlist());
    let baseline = config.subagent_model_provider_baseline();
    config
        .select_subagent_model_provider(&baseline, "external")
        .expect("allowlisted and defined");
    assert_eq!(config.model_provider_id, "external");
    assert_eq!(
        config.model_provider,
        provider("Ollama", Some("http://localhost:11434/v1"))
    );
    assert_eq!(config.model_catalog, None);

    config.model_catalog = Some("external catalog".to_string());
    config
        .select_subagent_model_provider(&baseline, "external")
        .expect("selecting the same provider again");
    assert_eq!(config.model_provider_id, "external");
    assert_eq!(config.model_catalog, Some("external catalog".to_string()));

    config
        .select_subagent_model_provider(&baseline, "openai")
        .expect("the baseline provider");
    assert_eq!(config.model_provider_id, "openai");
    assert_eq!(config.model_catalog, None);
}

#[test]
fn baseline_for_a_recorded_provider_carries_its_identifier() {
    let config = with_external_provider(config_with_base_allowlist());
    let baseline = config
        .subagent_model_provider_baseline_for("external")
        .expect("allowlisted and defined");
    assert_eq!(baseline.id, "external");
    assert_eq!(
        baseline.provider,
        provider("Ollama", Some("http://localhost:11434/v1"))
    );
    assert!(config.subagent_model_provider_baseline_for("missing").is_err());
}

#[test]
fn authorized_external_role_needs_allowlist_definition_and_foreign_provider() {
    let mut config = with_external_provider(test_config());
    config.agent_roles.insert(
        "custom_child".to_string(),
        AgentRoleConfig {
            config_file: Some("custom-child.toml".to_string()),
            model_provider: Some("external".to_string()),
            model_catalog_json: None,
        },
    );
    assert!(!config.has_authorized_external_subagent_role());

    config.config_layer_stack = config.config_layer_stack.with_user_config(
        CONFIG_TOML_FILE,
        toml_config("subagent_model_provider_allowlist = [\"openai\"]").expect("valid"),
    );
    assert!(!config.has_authorized_external_subagent_role());

    config.agent_roles.insert(
        "openai_child".to_string(),
        AgentRoleConfig {
            config_file: None,
            model_provider: Some("openai".to_string()),
            model_catalog_json: None,
        },
    );
    assert!(
        !config.has_authorized_external_subagent_role(),
        "an OpenAI role is not an external role"
    );

    config.config_layer_stack = config.config_layer_stack.with_user_config(
        CONFIG_TOML_FILE,
        toml_config("subagent_model_provider_allowlist = [\"openai\", \"external\"]")
            .expect("valid"),
    );
    assert!(config.has_authorized_external_subagent_role());
}

#[test]
fn non_string_allowlist_entries_are_ignored() {
    let mut config = test_config();
    config.config_layer_stack = config.config_layer_stack.with_user_config(
        CONFIG_TOML_FILE,
        toml_config("subagent_model_provider_allowlist = [1, true, \"external\"]").expect("valid"),
    );
    assert!(config.user_allows_subagent_model_provider("external"));
    assert!(!config.user_allows_subagent_model_provider("1"));
    assert_eq!(
        config
            .user_subagent_model_provider_allowlist()
            .map(|list| list.len()),
        Some(3)
    );
}

#[test]
fn provider_definitions_read_back_after_insert() {
    let mut providers = ModelProviders::new();
    providers.insert("a".to_string(), provider("A", None));
    providers.insert("b".to_string(), provider("B", None));
    providers.insert("a".to_string(), provider("A2", Some("http://a")));
    assert_eq!(providers.get("a"), Some(&provider("A2", Some("http://a"))));
    assert_eq!(providers.get("b"), Some(&provider("B", None)));
    assert_eq!(providers.get("c"), None);
    assert_eq!(providers.entries.len(), 2);
}

#[test]
fn openai_provider_is_recognized_by_name() {
    assert!(provider("OpenAI", None).is_openai());
    assert!(!provider("openai", None).is_openai());
    assert!(!provider("Ollama", None).is_openai());
    assert!(provider("A", None).same_as(&provider("A", None)));
    assert!(!provider("A", None).same_as(&provider("A", Some("x"))));
}

#[test]
fn baseline_struct_holds_id_and_provider() {
    let baseline = SubagentModelProviderBaseline {
        id: "x".to_string(),
        provider: provider("X", None),
    };
    let config = test_config();
    assert_eq!(
        baseline.resolve(&config, "x").expect("own provider"),
        provider("X", None)
    );
}

#[test]
fn non_user_layers_never_change_the_allowlist() {
    let mut config = config_with_base_allowlist();
    config.config_layer_stack.layers.push(ConfigLayer {
        name: ConfigLayerSource::SessionFlags,
        config: toml_config("subagent_model_provider_allowlist = []").expect("valid"),
    });
    config.config_layer_stack.layers.push(ConfigLayer {
        name: ConfigLayerSource::Project { folder: "/repo/.codex".to_string() },
        config: toml_config("subagent_model_provider_allowlist = [\"project\"]").expect("valid"),
    });
    assert!(config.user_allows_subagent_model_provider("external"));
    assert!(!config.user_allows_subagent_model_provider("project"));
}

#[test]
fn setting_a_user_layer_twice_replaces_it() {
    let config = config_with_base_allowlist();
    let stack = config.config_layer_stack.with_user_config(
        CONFIG_TOML_FILE,
        toml_config("subagent_model_provider_allowlist = [\"other\"]").expect("valid"),
    );
    assert_eq!(stack.layers.len(), 1);
    let stack = stack.with_user_config_profile(
        "p.toml",
        Some("worker"),
        toml_config("model = \"x\"").expect("valid"),
    );
    let stack = stack.with_user_config_profile(
        "p.toml",
        Some("worker"),
        toml_config("model = \"y\"").expect("valid"),
    );
    assert_eq!(stack.layers.len(), 2);
}
