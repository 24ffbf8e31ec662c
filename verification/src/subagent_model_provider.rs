//! Which model provider a subagent may use: the parent's own provider, or one that
//! the user's settings allow and the parent's configuration defines.

use vstd::prelude::*;

use crate::config::{
    value_as_array, value_as_str, value_get, AgentRoleEntry, Config, ConfigLayer,
    ConfigLayerSource, ConfigValue,
};
use crate::model_provider_info::{
    is_openai_provider, provider_lookup, ModelProviderInfo, ProviderView,
};
use crate::text::str_eq;

verus! {

/// The settings key that lists the providers a user allows for subagents.
pub open spec fn allowlist_key() -> Seq<char> {
    "subagent_model_provider_allowlist"@
}

/// The value that the highest-precedence user layer defining the allowlist key
/// holds; lower layers are not consulted once one defines it.
pub open spec fn user_allowlist_value(layers: Seq<ConfigLayer>) -> Option<ConfigValue>
    decreases layers.len(),
{
    if layers.len() == 0 {
        None
    } else {
        let top = layers.last();
        if top.name is User && value_get(top.config, allowlist_key()) is Some {
            value_get(top.config, allowlist_key())
        } else {
            user_allowlist_value(layers.drop_last())
        }
    }
}

/// The user-owned allowlist, when that value is an array.
pub open spec fn user_allowlist(config: Config) -> Option<Seq<ConfigValue>> {
    match user_allowlist_value(config.config_layer_stack.layers@) {
        Some(v) => value_as_array(v),
        None => None,
    }
}

/// `list` holds the string `id`.
pub open spec fn allowlist_contains(list: Seq<ConfigValue>, id: Seq<char>) -> bool {
    exists|i: int| 0 <= i < list.len() && value_as_str(#[trigger] list[i]) == Some(id)
}

/// The user's settings allow subagents to use the provider `id`.
pub open spec fn user_allows(config: Config, id: Seq<char>) -> bool {
    user_allowlist(config) matches Some(list) && allowlist_contains(list, id)
}

/// The role names an allowed, defined, non-OpenAI provider.
pub open spec fn role_is_authorized_external(config: Config, role: AgentRoleEntry) -> bool {
    &&& role.config.model_provider matches Some(id)
    &&& user_allowlist(config) matches Some(list)
    &&& allowlist_contains(list, id@)
    &&& provider_lookup(config.model_providers.entries@, id@) matches Some(p)
    &&& !is_openai_provider(p)
}

/// Why a provider was refused for a subagent.
#[derive(Debug, PartialEq, Eq, Clone, Copy, Structural)]
pub enum ProviderSelectionError {
    /// The provider is not in the user's allowlist.
    NotAllowlisted,
    /// The parent's configuration does not define the provider.
    NotConfigured,
}

/// The text of a selection error.
pub open spec fn selection_error_text(e: ProviderSelectionError) -> Seq<char> {
    match e {
        ProviderSelectionError::NotAllowlisted => "the provider is not in the current user-owned subagent allowlist"@,
        ProviderSelectionError::NotConfigured => "the provider is not configured by the current parent"@,
    }
}

impl ProviderSelectionError {
    /// The text of this error.
    pub fn message(&self) -> (r: &'static str)
        ensures
            r@ == selection_error_text(*self),
    {
        match self {
            ProviderSelectionError::NotAllowlisted => "the provider is not in the current user-owned subagent allowlist",
            ProviderSelectionError::NotConfigured => "the provider is not configured by the current parent",
        }
    }
}

/// The provider that a parent passes to its subagents unless they choose another.
pub struct SubagentModelProviderBaseline {
    pub id: String,
    pub provider: ModelProviderInfo,
}

/// A baseline, as sequences of characters.
pub struct BaselineView {
    pub id: Seq<char>,
    pub provider: ProviderView,
}

impl View for SubagentModelProviderBaseline {
    type V = BaselineView;

    open spec fn view(&self) -> BaselineView {
        BaselineView { id: self.id@, provider: self.provider@ }
    }
}

/// The provider that `id` names for a subagent: the baseline's own provider for the
/// baseline's identifier, else a provider that the user allows and the configuration defines.
pub open spec fn resolve_provider(
    baseline: BaselineView,
    config: Config,
    id: Seq<char>,
) -> Result<ProviderView, ProviderSelectionError> {
    if id == baseline.id {
        Ok(baseline.provider)
    } else if !user_allows(config, id) {
        Err(ProviderSelectionError::NotAllowlisted)
    } else {
        match provider_lookup(config.model_providers.entries@, id) {
            Some(p) => Ok(p),
            None => Err(ProviderSelectionError::NotConfigured),
        }
    }
}

/// The baseline that a configuration gives its subagents: its own provider.
pub open spec fn own_baseline(config: Config) -> BaselineView {
    BaselineView { id: config.model_provider_id@, provider: config.model_provider@ }
}

/// `after` is `before` with the provider `id` selected from `baseline`, when `r` is
/// `Ok`; `before` unchanged otherwise. The model catalog is dropped when the
/// provider changes.
pub open spec fn selection_applied(
    before: Config,
    baseline: BaselineView,
    id: Seq<char>,
    r: Result<(), ProviderSelectionError>,
    after: Config,
) -> bool {
    match resolve_provider(baseline, before, id) {
        Err(e) => r == Err::<(), ProviderSelectionError>(e) && after == before,
        Ok(p) => {
            let changed = before.model_provider_id@ != id || before.model_provider@ != p;
            &&& r is Ok
            &&& after.model_provider_id@ == id
            &&& after.model_provider@ == p
            &&& after.model_catalog == (if changed {
                None
            } else {
                before.model_catalog
            })
            &&& after.model == before.model
            &&& after.model_providers == before.model_providers
            &&& after.agent_roles == before.agent_roles
            &&& after.config_layer_stack == before.config_layer_stack
        },
    }
}

impl SubagentModelProviderBaseline {
    /// The provider that `provider_id` names for a subagent.
    pub fn resolve(&self, config: &Config, provider_id: &str) -> (r: Result<
        ModelProviderInfo,
        ProviderSelectionError,
    >)
        ensures
            match r {
                Ok(p) => resolve_provider(self@, *config, provider_id@) == Ok::<
                    ProviderView,
                    ProviderSelectionError,
                >(p@),
                Err(e) => resolve_provider(self@, *config, provider_id@) == Err::<
                    ProviderView,
                    ProviderSelectionError,
                >(e),
            },
    {
        if str_eq(provider_id, self.id.as_str()) {
            return Ok(self.provider.duplicate());
        }
        if !config.user_allows_subagent_model_provider(provider_id) {
            return Err(ProviderSelectionError::NotAllowlisted);
        }
        match config.model_providers.get(provider_id) {
            Some(p) => Ok(p.duplicate()),
            None => Err(ProviderSelectionError::NotConfigured),
        }
    }
}

impl Config {
    /// This configuration's own provider, as the baseline of its subagents.
    pub fn subagent_model_provider_baseline(&self) -> (r: SubagentModelProviderBaseline)
        ensures
            r@ == own_baseline(*self),
    {
        SubagentModelProviderBaseline {
            id: self.model_provider_id.clone(),
            provider: self.model_provider.duplicate(),
        }
    }

    /// The baseline of a subagent whose parent used the provider `provider_id`.
    pub fn subagent_model_provider_baseline_for(&self, provider_id: &str) -> (r: Result<
        SubagentModelProviderBaseline,
        ProviderSelectionError,
    >)
        ensures
            match r {
                Ok(b) => b.id@ == provider_id@ && resolve_provider(
                    own_baseline(*self),
                    *self,
                    provider_id@,
                ) == Ok::<ProviderView, ProviderSelectionError>(b.provider@),
                Err(e) => resolve_provider(own_baseline(*self), *self, provider_id@) == Err::<
                    ProviderView,
                    ProviderSelectionError,
                >(e),
            },
    {
        let baseline = self.subagent_model_provider_baseline();
        let provider = baseline.resolve(self, provider_id);
        match provider {
            Ok(provider) => Ok(
                SubagentModelProviderBaseline { id: String::from_str(provider_id), provider },
            ),
            Err(e) => Err(e),
        }
    }

    /// Makes `provider_id` this configuration's provider, resolved from `baseline`.
    pub fn select_subagent_model_provider(
        &mut self,
        baseline: &SubagentModelProviderBaseline,
        provider_id: &str,
    ) -> (r: Result<(), ProviderSelectionError>)
        ensures
            selection_applied(*old(self), baseline@, provider_id@, r, *final(self)),
    {
        let provider = baseline.resolve(self, provider_id);
        let provider = match provider {
            Ok(p) => p,
            Err(e) => return Err(e),
        };
        let provider_changed = !str_eq(self.model_provider_id.as_str(), provider_id)
            || !self.model_provider.same_as(&provider);
        self.model_provider_id = String::from_str(provider_id);
        self.model_provider = provider;
        if provider_changed {
            self.model_catalog = None;
        }
        Ok(())
    }

    /// Whether some role names a provider that the user allows, this configuration
    /// defines, and that is not the OpenAI provider.
    pub fn has_authorized_external_subagent_role(&self) -> (r: bool)
        ensures
            r == exists|i: int|
                0 <= i < self.agent_roles.entries@.len() && role_is_authorized_external(
                    *self,
                    #[trigger] self.agent_roles.entries@[i],
                ),
    {
        let allowlist = match self.user_subagent_model_provider_allowlist() {
            Some(list) => list,
            None => {
                return false;
            },
        };
        let roles = &self.agent_roles.entries;
        let n = roles.len();
        let mut i: usize = 0;
        while i < n
            invariant
                n == roles@.len(),
                roles@ == self.agent_roles.entries@,
                user_allowlist(*self) == Some(allowlist@),
                0 <= i <= n,
                forall|j: int| 0 <= j < i ==> !role_is_authorized_external(*self, #[trigger] roles@[j]),
            decreases n - i,
        {
            let role = &roles[i];
            match &role.config.model_provider {
                Some(provider_id) => {
                    if list_contains(allowlist, provider_id.as_str()) {
                        match self.model_providers.get(provider_id.as_str()) {
                            Some(provider) => {
                                if !provider.is_openai() {
                                    return true;
                                }
                            },
                            None => {},
                        }
                    }
                },
                None => {},
            }
            i += 1;
        }
        false
    }

    /// Whether the user's settings allow subagents to use the provider `provider_id`.
    pub fn user_allows_subagent_model_provider(&self, provider_id: &str) -> (r: bool)
        ensures
            r == user_allows(*self, provider_id@),
    {
        match self.user_subagent_model_provider_allowlist() {
            Some(list) => list_contains(list, provider_id),
            None => false,
        }
    }

    /// The allowlist of the highest-precedence user layer that defines it, when it
    /// is an array.
    pub fn user_subagent_model_provider_allowlist(&self) -> (r: Option<&[ConfigValue]>)
        ensures
            match r {
                Some(list) => user_allowlist(*self) == Some(list@),
                None => user_allowlist(*self) is None,
            },
    {
        let layers = &self.config_layer_stack.layers;
        let mut i: usize = layers.len();
        assert(layers@.subrange(0, i as int) =~= layers@);
        while i > 0
            invariant
                layers@ == self.config_layer_stack.layers@,
                0 <= i <= layers@.len(),
                user_allowlist_value(layers@) == user_allowlist_value(layers@.subrange(0, i as int)),
            decreases i,
        {
            let layer = &layers[i - 1];
            let ghost prefix = layers@.subrange(0, i as int);
            proof {
                assert(prefix.last() == layers@[i - 1]);
                assert(prefix.drop_last() =~= layers@.subrange(0, i - 1));
            }
            if let ConfigLayerSource::User { .. } = &layer.name {
                if let Some(value) = layer.config.get("subagent_model_provider_allowlist") {
                    return value.as_array();
                }
            }
            i -= 1;
        }
        proof {
            assert(layers@.subrange(0, 0) =~= Seq::<ConfigLayer>::empty());
        }
        None
    }
}

/// Whether `list` holds the string `id`.
fn list_contains(list: &[ConfigValue], id: &str) -> (r: bool)
    ensures
        r == allowlist_contains(list@, id@),
{
    let n = list.len();
    let mut i: usize = 0;
    while i < n
        invariant
            n == list@.len(),
            0 <= i <= n,
            forall|j: int| 0 <= j < i ==> value_as_str(#[trigger] list@[j]) != Some(id@),
        decreases n - i,
    {
        match list[i].as_str() {
            Some(s) => {
                if str_eq(s, id) {
                    return true;
                }
            },
            None => {},
        }
        i += 1;
    }
    false
}

/// Selecting the same provider again from the same baseline succeeds and changes
/// nothing: the identifier, the provider and the model catalog stay.
pub proof fn law_reselecting_is_a_no_op(
    c0: Config,
    c1: Config,
    c2: Config,
    baseline: BaselineView,
    id: Seq<char>,
    r2: Result<(), ProviderSelectionError>,
)
    requires
        selection_applied(c0, baseline, id, Ok(()), c1),
        selection_applied(c1, baseline, id, r2, c2),
    ensures
        r2 is Ok,
        c2.model_provider_id@ == c1.model_provider_id@,
        c2.model_provider@ == c1.model_provider@,
        c2.model_catalog == c1.model_catalog,
        c2.model == c1.model,
        c2.model_providers == c1.model_providers,
        c2.agent_roles == c1.agent_roles,
        c2.config_layer_stack == c1.config_layer_stack,
{
    assert(resolve_provider(baseline, c1, id) == resolve_provider(baseline, c0, id));
}

/// A child may always use the provider of its parent's baseline, whatever the
/// allowlist says.
pub proof fn law_baseline_provider_always_resolves(baseline: BaselineView, config: Config)
    ensures
        resolve_provider(baseline, config, baseline.id) == Ok::<ProviderView, ProviderSelectionError>(
            baseline.provider,
        ),
{
}

/// Any other provider is refused unless the user allows it, and the refusal
/// leaves the configuration unchanged.
pub proof fn law_unlisted_provider_is_refused(
    before: Config,
    after: Config,
    baseline: BaselineView,
    id: Seq<char>,
    r: Result<(), ProviderSelectionError>,
)
    requires
        selection_applied(before, baseline, id, r, after),
        id != baseline.id,
        !user_allows(before, id),
    ensures
        r == Err::<(), ProviderSelectionError>(ProviderSelectionError::NotAllowlisted),
        after == before,
{
}

/// The highest-precedence user layer that defines the allowlist decides it; lower
/// layers are not consulted, even when that value is empty or not an array.
pub proof fn law_top_user_layer_decides(lower: Seq<ConfigLayer>, top: ConfigLayer, v: ConfigValue)
    requires
        top.name is User,
        value_get(top.config, allowlist_key()) == Some(v),
    ensures
        user_allowlist_value(lower.push(top)) == Some(v),
{
    assert(lower.push(top).last() == top);
}

/// Layers that are not user-owned never change the allowlist.
pub proof fn law_non_user_layers_are_ignored(lower: Seq<ConfigLayer>, top: ConfigLayer)
    requires
        !(top.name is User),
    ensures
        user_allowlist_value(lower.push(top)) == user_allowlist_value(lower),
{
    assert(lower.push(top).last() == top);
    assert(lower.push(top).drop_last() =~= lower);
}

} // verus!
