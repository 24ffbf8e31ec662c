//! Configuration: layered user settings and the parts of a session configuration
//! that provider routing reads.

use vstd::prelude::*;

use crate::model_provider_info::{ModelProviderInfo, ModelProviders};
use crate::text::{option_chars, option_str_eq, str_eq};

verus! {

/// A configuration value as a settings file holds it.
#[derive(Debug, PartialEq, Eq)]
pub enum ConfigValue {
    String(String),
    Integer(i64),
    Boolean(bool),
    Array(Vec<ConfigValue>),
    Table(Vec<ConfigEntry>),
    /// A date, a time or a fractional number: values that routing never reads.
    OtherScalar,
}

/// A key of a table and its value.
#[derive(Debug, PartialEq, Eq)]
pub struct ConfigEntry {
    pub key: String,
    pub value: ConfigValue,
}

/// The value stored under `key` in `entries`: the first entry with that key.
pub open spec fn table_lookup(entries: Seq<ConfigEntry>, key: Seq<char>) -> Option<ConfigValue>
    decreases entries.len(),
{
    if entries.len() == 0 {
        None
    } else if entries[0].key@ == key {
        Some(entries[0].value)
    } else {
        table_lookup(entries.drop_first(), key)
    }
}

/// The value under `key` when `v` is a table.
pub open spec fn value_get(v: ConfigValue, key: Seq<char>) -> Option<ConfigValue> {
    match v {
        ConfigValue::Table(entries) => table_lookup(entries@, key),
        _ => None,
    }
}

/// The items of `v` when it is an array.
pub open spec fn value_as_array(v: ConfigValue) -> Option<Seq<ConfigValue>> {
    match v {
        ConfigValue::Array(items) => Some(items@),
        _ => None,
    }
}

/// The text of `v` when it is a string.
pub open spec fn value_as_str(v: ConfigValue) -> Option<Seq<char>> {
    match v {
        ConfigValue::String(s) => Some(s@),
        _ => None,
    }
}

proof fn lemma_table_lookup_at(entries: Seq<ConfigEntry>, key: Seq<char>, k: int)
    requires
        0 <= k < entries.len(),
        entries[k].key@ == key,
        forall|j: int| 0 <= j < k ==> entries[j].key@ != key,
    ensures
        table_lookup(entries, key) == Some(entries[k].value),
    decreases k,
{
    if k > 0 {
        assert forall|j: int| 0 <= j < k - 1 implies entries.drop_first()[j].key@ != key by {
            assert(entries.drop_first()[j] == entries[j + 1]);
        }
        lemma_table_lookup_at(entries.drop_first(), key, k - 1);
    }
}

proof fn lemma_table_lookup_absent(entries: Seq<ConfigEntry>, key: Seq<char>)
    requires
        forall|j: int| 0 <= j < entries.len() ==> entries[j].key@ != key,
    ensures
        table_lookup(entries, key) is None,
    decreases entries.len(),
{
    if entries.len() > 0 {
        assert forall|j: int| 0 <= j < entries.len() - 1 implies entries.drop_first()[j].key@ != key by {
            assert(entries.drop_first()[j] == entries[j + 1]);
        }
        lemma_table_lookup_absent(entries.drop_first(), key);
    }
}

impl ConfigValue {
    /// The value under `key` when this value is a table.
    pub fn get(&self, key: &str) -> (r: Option<&ConfigValue>)
        ensures
            match r {
                Some(v) => value_get(*self, key@) == Some(*v),
                None => value_get(*self, key@) is None,
            },
    {
        match self {
            ConfigValue::Table(entries) => {
                let n = entries.len();
                let mut i: usize = 0;
                assert(value_get(*self, key@) == table_lookup(entries@, key@));
                while i < n
                    invariant
                        value_get(*self, key@) == table_lookup(entries@, key@),
                        n == entries@.len(),
                        0 <= i <= n,
                        forall|j: int| 0 <= j < i ==> entries@[j].key@ != key@,
                    decreases n - i,
                {
                    if str_eq(entries[i].key.as_str(), key) {
                        proof {
                            lemma_table_lookup_at(entries@, key@, i as int);
                        }
                        return Some(&entries[i].value);
                    }
                    i += 1;
                }
                proof {
                    lemma_table_lookup_absent(entries@, key@);
                }
                None
            },
            _ => None,
        }
    }

    /// The items of this value when it is an array.
    pub fn as_array(&self) -> (r: Option<&[ConfigValue]>)
        ensures
            match r {
                Some(items) => value_as_array(*self) == Some(items@),
                None => value_as_array(*self) is None,
            },
    {
        match self {
            ConfigValue::Array(items) => Some(items.as_slice()),
            _ => None,
        }
    }

    /// The text of this value when it is a string.
    pub fn as_str(&self) -> (r: Option<&str>)
        ensures
            match r {
                Some(s) => value_as_str(*self) == Some(s@),
                None => value_as_str(*self) is None,
            },
    {
        match self {
            ConfigValue::String(s) => Some(s.as_str()),
            _ => None,
        }
    }
}

/// Where a configuration layer comes from.
#[derive(Debug, PartialEq, Eq)]
pub enum ConfigLayerSource {
    System { file: String },
    /// A user-owned settings file; `profile` names the profile it belongs to.
    User { file: String, profile: Option<String> },
    Project { folder: String },
    SessionFlags,
}

/// One layer of settings.
#[derive(Debug, PartialEq, Eq)]
pub struct ConfigLayer {
    pub name: ConfigLayerSource,
    pub config: ConfigValue,
}

/// The layer is the user layer of `profile` (the base user layer for `None`).
pub open spec fn is_user_layer_of(layer: ConfigLayer, profile: Option<Seq<char>>) -> bool {
    layer.name matches ConfigLayerSource::User { file: _, profile: p } && option_chars(p) == profile
}

/// The layers of a configuration, lowest precedence first.
#[derive(Debug, PartialEq, Eq)]
pub struct ConfigLayerStack {
    pub layers: Vec<ConfigLayer>,
}

/// `l` is the user layer of `profile` read from `file`, holding `config`.
pub open spec fn is_new_user_layer(
    l: ConfigLayer,
    file: Seq<char>,
    profile: Option<Seq<char>>,
    config: ConfigValue,
) -> bool {
    l.name matches ConfigLayerSource::User { file: f, profile: p } && f@ == file && option_chars(p)
        == profile && l.config == config
}

/// `after` is `before` with its layer `k`, the first user layer of `profile`, replaced.
pub open spec fn user_layer_replaced_at(
    before: Seq<ConfigLayer>,
    after: Seq<ConfigLayer>,
    file: Seq<char>,
    profile: Option<Seq<char>>,
    config: ConfigValue,
    k: int,
) -> bool {
    &&& 0 <= k < before.len()
    &&& is_user_layer_of(before[k], profile)
    &&& forall|j: int| 0 <= j < k ==> !is_user_layer_of(#[trigger] before[j], profile)
    &&& after.len() == before.len()
    &&& is_new_user_layer(after[k], file, profile, config)
    &&& forall|j: int| 0 <= j < before.len() && j != k ==> after[j] == before[j]
}

/// `after` is `before` with the user layer of `profile` set to `config`: the
/// first such layer is replaced, or a new one is put on top.
pub open spec fn user_layer_set(
    before: Seq<ConfigLayer>,
    after: Seq<ConfigLayer>,
    file: Seq<char>,
    profile: Option<Seq<char>>,
    config: ConfigValue,
) -> bool {
    if exists|k: int| 0 <= k < before.len() && is_user_layer_of(#[trigger] before[k], profile) {
        exists|k: int| user_layer_replaced_at(before, after, file, profile, config, k)
    } else {
        &&& after.len() == before.len() + 1
        &&& is_new_user_layer(after[before.len() as int], file, profile, config)
        &&& forall|j: int| 0 <= j < before.len() ==> after[j] == before[j]
    }
}

impl ConfigLayerStack {
    pub fn new() -> (r: ConfigLayerStack)
        ensures
            r.layers@.len() == 0,
    {
        ConfigLayerStack { layers: Vec::new() }
    }

    /// This stack with the base user layer set to `config`.
    pub fn with_user_config(self, file: &str, config: ConfigValue) -> (r: ConfigLayerStack)
        ensures
            user_layer_set(self.layers@, r.layers@, file@, None, config),
    {
        self.with_user_config_profile(file, None, config)
    }

    /// This stack with the user layer of `profile` set to `config`.
    pub fn with_user_config_profile(
        self,
        file: &str,
        profile: Option<&str>,
        config: ConfigValue,
    ) -> (r: ConfigLayerStack)
        ensures
            user_layer_set(
                self.layers@,
                r.layers@,
                file@,
                match profile {
                    Some(p) => Some(p@),
                    None => None,
                },
                config,
            ),
    {
        let owned_profile: Option<String> = match profile {
            Some(p) => Some(String::from_str(p)),
            None => None,
        };
        let ghost pv = option_chars(owned_profile);
        assert(pv == match profile {
            Some(p) => Some(p@),
            None => None,
        });

        let mut layers = self.layers;
        let n = layers.len();
        let mut i: usize = 0;
        while i < n
            invariant
                n == layers@.len(),
                layers@ == self.layers@,
                pv == option_chars(owned_profile),
                pv == match profile {
                    Some(p) => Some(p@),
                    None => None,
                },
                0 <= i <= n,
                forall|j: int| 0 <= j < i ==> !is_user_layer_of(#[trigger] layers@[j], pv),
            decreases n - i,
        {
            let is_match = match &layers[i].name {
                ConfigLayerSource::User { file: _, profile: p } => option_str_eq(p, &owned_profile),
                _ => false,
            };
            if is_match {
                let ghost before = layers@;
                let layer = ConfigLayer {
                    name: ConfigLayerSource::User { file: String::from_str(file), profile: owned_profile },
                    config,
                };
                layers.set(i, layer);
                proof {
                    assert(is_user_layer_of(before[i as int], pv));
                    assert(layers@[i as int] == layer);
                    assert(user_layer_replaced_at(before, layers@, file@, pv, config, i as int));

                }
                return ConfigLayerStack { layers };
            }
            i += 1;
        }
        let layer = ConfigLayer {
            name: ConfigLayerSource::User { file: String::from_str(file), profile: owned_profile },
            config,
        };
        layers.push(layer);
        proof {
            assert(layers@[n as int] == layer);
        }
        ConfigLayerStack { layers }
    }
}

/// The settings of an agent role.
#[derive(Debug, PartialEq, Eq)]
pub struct AgentRoleConfig {
    pub config_file: Option<String>,
    pub model_provider: Option<String>,
    pub model_catalog_json: Option<String>,
}

/// A role under its name.
#[derive(Debug, PartialEq, Eq)]
pub struct AgentRoleEntry {
    pub name: String,
    pub config: AgentRoleConfig,
}

/// The agent roles that a configuration defines.
#[derive(Debug, PartialEq, Eq)]
pub struct AgentRoles {
    pub entries: Vec<AgentRoleEntry>,
}

impl AgentRoles {
    pub fn new() -> (r: AgentRoles)
        ensures
            r.entries@.len() == 0,
    {
        AgentRoles { entries: Vec::new() }
    }

    /// Defines the role `name`: the first role of that name is replaced, or the
    /// role is appended.
    pub fn insert(&mut self, name: String, config: AgentRoleConfig)
        ensures
            role_set(old(self).entries@, final(self).entries@, name@, config),
    {
        let n = self.entries.len();
        let mut i: usize = 0;
        while i < n
            invariant
                n == self.entries@.len(),
                self.entries@ == old(self).entries@,
                0 <= i <= n,
                forall|j: int| 0 <= j < i ==> self.entries@[j].name@ != name@,
            decreases n - i,
        {
            if str_eq(self.entries[i].name.as_str(), name.as_str()) {
                let ghost before = self.entries@;
                let ghost nv = name@;
                let e = AgentRoleEntry { name, config };
                self.entries.set(i, e);
                proof {
                    assert(self.entries@[i as int] == e);
                    assert(role_replaced_at(before, self.entries@, nv, config, i as int));
                }
                return;
            }
            i += 1;
        }
        let e = AgentRoleEntry { name, config };
        self.entries.push(e);
        proof {
            assert(self.entries@[n as int] == e);
        }
    }
}

/// `after` is `before` with its entry `k`, the first role named `name`, replaced.
pub open spec fn role_replaced_at(
    before: Seq<AgentRoleEntry>,
    after: Seq<AgentRoleEntry>,
    name: Seq<char>,
    config: AgentRoleConfig,
    k: int,
) -> bool {
    &&& 0 <= k < before.len()
    &&& before[k].name@ == name
    &&& forall|j: int| 0 <= j < k ==> before[j].name@ != name
    &&& after.len() == before.len()
    &&& after[k].name@ == name
    &&& after[k].config == config
    &&& forall|j: int| 0 <= j < before.len() && j != k ==> after[j] == before[j]
}

/// `after` is `before` with the role `name` set to `config`.
pub open spec fn role_set(
    before: Seq<AgentRoleEntry>,
    after: Seq<AgentRoleEntry>,
    name: Seq<char>,
    config: AgentRoleConfig,
) -> bool {
    if exists|k: int| 0 <= k < before.len() && #[trigger] before[k].name@ == name {
        exists|k: int| role_replaced_at(before, after, name, config, k)
    } else {
        &&& after.len() == before.len() + 1
        &&& after[before.len() as int].name@ == name
        &&& after[before.len() as int].config == config
        &&& forall|j: int| 0 <= j < before.len() ==> after[j] == before[j]
    }
}

/// The parts of a session configuration that provider routing reads and writes.
#[derive(Debug, PartialEq, Eq)]
pub struct Config {
    /// The model that the session uses, when one was chosen.
    pub model: Option<String>,
    /// The identifier of the session's provider.
    pub model_provider_id: String,
    /// The session's provider.
    pub model_provider: ModelProviderInfo,
    /// The providers that this configuration defines.
    pub model_providers: ModelProviders,
    /// The agent roles that this configuration defines.
    pub agent_roles: AgentRoles,
    /// The settings layers.
    pub config_layer_stack: ConfigLayerStack,
    /// The model catalog loaded for the session's provider, if any.
    pub model_catalog: Option<String>,
}

/// Setting the same user layer twice replaces it: the second setting does not
/// add a layer.
pub proof fn law_user_layer_set_twice_does_not_grow(
    s0: Seq<ConfigLayer>,
    s1: Seq<ConfigLayer>,
    s2: Seq<ConfigLayer>,
    file1: Seq<char>,
    file2: Seq<char>,
    profile: Option<Seq<char>>,
    config1: ConfigValue,
    config2: ConfigValue,
)
    requires
        user_layer_set(s0, s1, file1, profile, config1),
        user_layer_set(s1, s2, file2, profile, config2),
    ensures
        s2.len() == s1.len(),
{
    let k = if exists|k: int| 0 <= k < s0.len() && is_user_layer_of(#[trigger] s0[k], profile) {
        choose|k: int| user_layer_replaced_at(s0, s1, file1, profile, config1, k)
    } else {
        s0.len() as int
    };
    assert(is_user_layer_of(s1[k], profile));
}

} // verus!
