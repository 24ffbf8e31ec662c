//! Provider decisions of the agent control: which provider a known agent uses, the
//! provider baseline that a parent hands to its children, and what resuming or
//! forking a subagent may change.

use vstd::prelude::*;

use crate::config::Config;
use crate::model_provider_info::{is_openai_provider, provider_lookup};
use crate::protocol::{source_parent, SessionSource, SpawnAgentForkMode, SubAgentSource, ThreadId};
use crate::subagent_model_provider::{
    own_baseline, resolve_provider, selection_applied, selection_error_text, user_allows, BaselineView,
    ProviderSelectionError, SubagentModelProviderBaseline,
};

verus! {

/// An error of the agent control.
#[derive(Debug, PartialEq, Eq)]
pub enum CodexErr {
    InvalidRequest(String),
    ThreadNotFound(ThreadId),
    /// The thread manager is gone.
    InternalAgentDied,
}

/// An error, with its text as a sequence of characters.
pub enum CodexErrView {
    InvalidRequest(Seq<char>),
    ThreadNotFound(ThreadId),
    InternalAgentDied,
}

impl View for CodexErr {
    type V = CodexErrView;

    open spec fn view(&self) -> CodexErrView {
        match self {
            CodexErr::InvalidRequest(m) => CodexErrView::InvalidRequest(m@),
            CodexErr::ThreadNotFound(id) => CodexErrView::ThreadNotFound(*id),
            CodexErr::InternalAgentDied => CodexErrView::InternalAgentDied,
        }
    }
}

/// What the store records of a thread.
#[derive(Debug, PartialEq, Eq)]
pub struct StoredThread {
    pub thread_id: ThreadId,
    pub parent_thread_id: Option<ThreadId>,
    pub source: SessionSource,
    pub model_provider: String,
    pub model: Option<String>,
}

/// A thread that is loaded, with its session configuration.
#[derive(Debug, PartialEq, Eq)]
pub struct LiveThread {
    pub thread_id: ThreadId,
    pub config: Config,
}

/// The threads that the thread manager holds: the loaded ones and the recorded ones.
#[derive(Debug, PartialEq, Eq)]
pub struct ThreadManagerState {
    pub live_threads: Vec<LiveThread>,
    pub stored_threads: Vec<StoredThread>,
}

/// The configuration of the loaded thread `id`.
pub open spec fn live_config(threads: Seq<LiveThread>, id: ThreadId) -> Option<Config>
    decreases threads.len(),
{
    if threads.len() == 0 {
        None
    } else if threads[0].thread_id == id {
        Some(threads[0].config)
    } else {
        live_config(threads.drop_first(), id)
    }
}

/// The record of the thread `id`.
pub open spec fn stored_record(threads: Seq<StoredThread>, id: ThreadId) -> Option<StoredThread>
    decreases threads.len(),
{
    if threads.len() == 0 {
        None
    } else if threads[0].thread_id == id {
        Some(threads[0])
    } else {
        stored_record(threads.drop_first(), id)
    }
}

proof fn lemma_live_config_at(threads: Seq<LiveThread>, id: ThreadId, k: int)
    requires
        0 <= k < threads.len(),
        threads[k].thread_id == id,
        forall|j: int| 0 <= j < k ==> threads[j].thread_id != id,
    ensures
        live_config(threads, id) == Some(threads[k].config),
    decreases k,
{
    if k > 0 {
        assert forall|j: int| 0 <= j < k - 1 implies threads.drop_first()[j].thread_id != id by {
            assert(threads.drop_first()[j] == threads[j + 1]);
        }
        lemma_live_config_at(threads.drop_first(), id, k - 1);
    }
}

proof fn lemma_live_config_absent(threads: Seq<LiveThread>, id: ThreadId)
    requires
        forall|j: int| 0 <= j < threads.len() ==> threads[j].thread_id != id,
    ensures
        live_config(threads, id) is None,
    decreases threads.len(),
{
    if threads.len() > 0 {
        assert forall|j: int| 0 <= j < threads.len() - 1 implies threads.drop_first()[j].thread_id != id by {
            assert(threads.drop_first()[j] == threads[j + 1]);
        }
        lemma_live_config_absent(threads.drop_first(), id);
    }
}

proof fn lemma_stored_record_at(threads: Seq<StoredThread>, id: ThreadId, k: int)
    requires
        0 <= k < threads.len(),
        threads[k].thread_id == id,
        forall|j: int| 0 <= j < k ==> threads[j].thread_id != id,
    ensures
        stored_record(threads, id) == Some(threads[k]),
    decreases k,
{
    if k > 0 {
        assert forall|j: int| 0 <= j < k - 1 implies threads.drop_first()[j].thread_id != id by {
            assert(threads.drop_first()[j] == threads[j + 1]);
        }
        lemma_stored_record_at(threads.drop_first(), id, k - 1);
    }
}

proof fn lemma_stored_record_absent(threads: Seq<StoredThread>, id: ThreadId)
    requires
        forall|j: int| 0 <= j < threads.len() ==> threads[j].thread_id != id,
    ensures
        stored_record(threads, id) is None,
    decreases threads.len(),
{
    if threads.len() > 0 {
        assert forall|j: int| 0 <= j < threads.len() - 1 implies threads.drop_first()[j].thread_id != id by {
            assert(threads.drop_first()[j] == threads[j + 1]);
        }
        lemma_stored_record_absent(threads.drop_first(), id);
    }
}

impl ThreadManagerState {
    /// The configuration of the loaded thread `id`.
    pub fn get_thread(&self, id: ThreadId) -> (r: Result<&Config, CodexErr>)
        ensures
            match r {
                Ok(c) => live_config(self.live_threads@, id) == Some(*c),
                Err(e) => live_config(self.live_threads@, id) is None && e
                    == CodexErr::ThreadNotFound(id),
            },
    {
        let n = self.live_threads.len();
        let mut i: usize = 0;
        while i < n
            invariant
                n == self.live_threads@.len(),
                0 <= i <= n,
                forall|j: int| 0 <= j < i ==> self.live_threads@[j].thread_id != id,
            decreases n - i,
        {
            if self.live_threads[i].thread_id == id {
                proof {
                    lemma_live_config_at(self.live_threads@, id, i as int);
                }
                return Ok(&self.live_threads[i].config);
            }
            i += 1;
        }
        proof {
            lemma_live_config_absent(self.live_threads@, id);
        }
        Err(CodexErr::ThreadNotFound(id))
    }

    /// The record of the thread `id`, archived threads included.
    pub fn read_stored_thread(&self, id: ThreadId) -> (r: Result<&StoredThread, CodexErr>)
        ensures
            match r {
                Ok(t) => stored_record(self.stored_threads@, id) == Some(*t),
                Err(e) => stored_record(self.stored_threads@, id) is None && e
                    == CodexErr::ThreadNotFound(id),
            },
    {
        let n = self.stored_threads.len();
        let mut i: usize = 0;
        while i < n
            invariant
                n == self.stored_threads@.len(),
                0 <= i <= n,
                forall|j: int| 0 <= j < i ==> self.stored_threads@[j].thread_id != id,
            decreases n - i,
        {
            if self.stored_threads[i].thread_id == id {
                proof {
                    lemma_stored_record_at(self.stored_threads@, id, i as int);
                }
                return Ok(&self.stored_threads[i]);
            }
            i += 1;
        }
        proof {
            lemma_stored_record_absent(self.stored_threads@, id);
        }
        Err(CodexErr::ThreadNotFound(id))
    }
}

/// The error of a refused resume.
pub open spec fn resume_error_text(provider_id: Seq<char>, e: ProviderSelectionError) -> Seq<char> {
    "cannot resume subagent with model provider `"@ + provider_id + "`: "@ + selection_error_text(e)
}

/// The error of a recorded parent provider that cannot be resolved.
pub open spec fn recorded_parent_error_text(e: ProviderSelectionError) -> Seq<char> {
    "cannot resolve the recorded parent model provider: "@ + selection_error_text(e)
}

pub open spec fn history_fork_error_text() -> Seq<char> {
    "history forks require the child to use the parent's exact model provider configuration; use fork_turns=\"none\" for a different provider"@
}

/// The selection result of resolving `id` from `baseline` in `config`.
pub open spec fn selection_result(baseline: BaselineView, config: Config, id: Seq<char>) -> Result<(), ProviderSelectionError> {
    match resolve_provider(baseline, config, id) {
        Ok(_) => Ok(()),
        Err(e) => Err(e),
    }
}

/// Restores the provider that a resumed subagent recorded, resolved from `model_provider_baseline`.
pub fn restore_persisted_agent_model_provider(
    config: &mut Config,
    model_provider_baseline: &SubagentModelProviderBaseline,
    model_provider_id: &str,
) -> (r: Result<(), CodexErr>)
    ensures
        selection_applied(
            *old(config),
            model_provider_baseline@,
            model_provider_id@,
            selection_result(model_provider_baseline@, *old(config), model_provider_id@),
            *final(config),
        ),
        match resolve_provider(model_provider_baseline@, *old(config), model_provider_id@) {
            Ok(_) => r is Ok,
            Err(e) => r matches Err(err) && err@ == CodexErrView::InvalidRequest(
                resume_error_text(model_provider_id@, e),
            ),
        },
{
    match config.select_subagent_model_provider(model_provider_baseline, model_provider_id) {
        Ok(()) => Ok(()),
        Err(err) => {
            let mut m = String::from_str("cannot resume subagent with model provider `");
            m.append(model_provider_id);
            m.append("`: ");
            m.append(err.message());
            Err(CodexErr::InvalidRequest(m))
        },
    }
}

/// Restores the model that a resumed subagent recorded, if it recorded one.
pub fn restore_persisted_agent_model(config: &mut Config, model: Option<String>)
    ensures
        final(config).model == (match model {
            Some(m) => Some(m),
            None => old(config).model,
        }),
        final(config).model_provider_id == old(config).model_provider_id,
        final(config).model_provider == old(config).model_provider,
        final(config).model_providers == old(config).model_providers,
        final(config).agent_roles == old(config).agent_roles,
        final(config).config_layer_stack == old(config).config_layer_stack,
        final(config).model_catalog == old(config).model_catalog,
{
    if let Some(model) = model {
        config.model = Some(model);
    }
}

/// The parent of a child started with a history fork, when there is one.
pub open spec fn history_fork_parent(
    session_source: Option<&SessionSource>,
    fork_mode: Option<&SpawnAgentForkMode>,
) -> Option<ThreadId> {
    match (fork_mode, session_source) {
        (Some(_), Some(s)) => source_parent(*s),
        _ => None,
    }
}

/// Two configurations use the same provider: the same identifier and definition.
pub open spec fn same_provider_configuration(a: Config, b: Config) -> bool {
    a.model_provider_id@ == b.model_provider_id@ && a.model_provider@ == b.model_provider@
}

/// A child that forks its parent's history must use its parent's exact provider.
pub fn validate_history_fork_model_provider(
    state: &ThreadManagerState,
    config: &Config,
    session_source: Option<&SessionSource>,
    fork_mode: Option<&SpawnAgentForkMode>,
) -> (r: Result<(), CodexErr>)
    ensures
        match history_fork_parent(session_source, fork_mode) {
            None => r is Ok,
            Some(parent) => match live_config(state.live_threads@, parent) {
                None => r == Err::<(), CodexErr>(CodexErr::ThreadNotFound(parent)),
                Some(parent_config) => if same_provider_configuration(*config, parent_config) {
                    r is Ok
                } else {
                    r matches Err(e) && e@ == CodexErrView::InvalidRequest(history_fork_error_text())
                },
            },
        },
{
    let parent_thread_id = match (fork_mode, session_source) {
        (
            Some(_),
            Some(SessionSource::SubAgent(SubAgentSource::ThreadSpawn { parent_thread_id, .. })),
        ) => *parent_thread_id,
        _ => {
            return Ok(());
        },
    };
    let parent_config = match state.get_thread(parent_thread_id) {
        Ok(c) => c,
        Err(e) => {
            return Err(e);
        },
    };
    if !crate::text::str_eq(config.model_provider_id.as_str(), parent_config.model_provider_id.as_str())
        || !config.model_provider.same_as(&parent_config.model_provider) {
        return Err(
            CodexErr::InvalidRequest(
                String::from_str(
                    "history forks require the child to use the parent's exact model provider configuration; use fork_turns=\"none\" for a different provider",
                ),
            ),
        );
    }
    Ok(())
}

/// The baseline that the parent `parent_thread_id` hands to its children: the
/// configuration's own provider without a parent, a loaded parent's own provider,
/// or the provider that the parent's record names, resolved in `config`.
pub open spec fn parent_baseline(
    state: ThreadManagerState,
    config: Config,
    parent_thread_id: Option<ThreadId>,
) -> Result<BaselineView, CodexErrView> {
    match parent_thread_id {
        None => Ok(own_baseline(config)),
        Some(parent) => match live_config(state.live_threads@, parent) {
            Some(parent_config) => Ok(own_baseline(parent_config)),
            None => match stored_record(state.stored_threads@, parent) {
                None => Err(CodexErrView::ThreadNotFound(parent)),
                Some(record) => match resolve_provider(
                    own_baseline(config),
                    config,
                    record.model_provider@,
                ) {
                    Ok(p) => Ok(BaselineView { id: record.model_provider@, provider: p }),
                    Err(e) => Err(CodexErrView::InvalidRequest(recorded_parent_error_text(e))),
                },
            },
        },
    }
}

/// A baseline result, as views.
pub open spec fn baseline_result_view(r: Result<SubagentModelProviderBaseline, CodexErr>) -> Result<BaselineView, CodexErrView> {
    match r {
        Ok(b) => Ok(b@),
        Err(e) => Err(e@),
    }
}

/// The provider baseline that the parent `parent_thread_id` hands to its children.
pub fn model_provider_baseline_for_parent(
    state: &ThreadManagerState,
    config: &Config,
    parent_thread_id: Option<ThreadId>,
) -> (r: Result<SubagentModelProviderBaseline, CodexErr>)
    ensures
        baseline_result_view(r) == parent_baseline(*state, *config, parent_thread_id),
{
    let parent_thread_id = match parent_thread_id {
        Some(id) => id,
        None => {
            return Ok(config.subagent_model_provider_baseline());
        },
    };
    if let Ok(parent) = state.get_thread(parent_thread_id) {
        return Ok(parent.subagent_model_provider_baseline());
    }
    let parent = match state.read_stored_thread(parent_thread_id) {
        Ok(p) => p,
        Err(e) => {
            return Err(e);
        },
    };
    match config.subagent_model_provider_baseline_for(parent.model_provider.as_str()) {
        Ok(b) => Ok(b),
        Err(err) => {
            let mut m = String::from_str("cannot resolve the recorded parent model provider: ");
            m.append(err.message());
            Err(CodexErr::InvalidRequest(m))
        },
    }
}

/// The parent that a record names: its own field, else the parent in its source.
pub open spec fn recorded_parent(record: StoredThread) -> Option<ThreadId> {
    match record.parent_thread_id {
        Some(p) => Some(p),
        None => source_parent(record.source),
    }
}

/// Whether the agent `agent_id` uses the OpenAI provider: a loaded agent's own
/// provider decides; for a recorded agent, the provider that it recorded, resolved
/// from its parent's baseline in `config`.
pub open spec fn agent_uses_openai(
    state: ThreadManagerState,
    agent_id: ThreadId,
    config: Config,
) -> Result<bool, CodexErrView> {
    match live_config(state.live_threads@, agent_id) {
        Some(c) => Ok(is_openai_provider(c.model_provider@)),
        None => match stored_record(state.stored_threads@, agent_id) {
            None => Err(CodexErrView::ThreadNotFound(agent_id)),
            Some(record) => match parent_baseline(state, config, recorded_parent(record)) {
                Err(e) => Err(e),
                Ok(baseline) => match resolve_provider(baseline, config, record.model_provider@) {
                    Ok(p) => Ok(is_openai_provider(p)),
                    Err(e) => Err(
                        CodexErrView::InvalidRequest(resume_error_text(record.model_provider@, e)),
                    ),
                },
            },
        },
    }
}

/// The agent control: a handle on the thread manager, which may be gone.
pub struct AgentControl {
    pub state: Option<ThreadManagerState>,
}

impl AgentControl {
    /// The thread manager, if it is still there.
    pub fn upgrade(&self) -> (r: Result<&ThreadManagerState, CodexErr>)
        ensures
            match r {
                Ok(s) => self.state == Some(*s),
                Err(e) => self.state is None && e == CodexErr::InternalAgentDied,
            },
    {
        match &self.state {
            Some(s) => Ok(s),
            None => Err(CodexErr::InternalAgentDied),
        }
    }

    /// Whether the agent `agent_id` uses the OpenAI model provider.
    pub fn agent_uses_openai_model_provider(&self, agent_id: ThreadId, config: &Config) -> (r:
        Result<bool, CodexErr>)
        ensures
            match self.state {
                None => r == Err::<bool, CodexErr>(CodexErr::InternalAgentDied),
                Some(state) => match r {
                    Ok(b) => agent_uses_openai(state, agent_id, *config) == Ok::<bool, CodexErrView>(b),
                    Err(e) => agent_uses_openai(state, agent_id, *config) == Err::<bool, CodexErrView>(e@),
                },
            },
    {
        let state = match self.upgrade() {
            Ok(s) => s,
            Err(e) => {
                return Err(e);
            },
        };
        if let Ok(thread_config) = state.get_thread(agent_id) {
            return Ok(thread_config.model_provider.is_openai());
        }
        let stored_thread = match state.read_stored_thread(agent_id) {
            Ok(t) => t,
            Err(e) => {
                return Err(e);
            },
        };
        let parent_thread_id = match stored_thread.parent_thread_id {
            Some(p) => Some(p),
            None => stored_thread.source.parent_thread_id(),
        };
        let baseline = match model_provider_baseline_for_parent(state, config, parent_thread_id) {
            Ok(b) => b,
            Err(e) => {
                return Err(e);
            },
        };
        match baseline.resolve(config, stored_thread.model_provider.as_str()) {
            Ok(provider) => Ok(provider.is_openai()),
            Err(err) => {
                let mut m = String::from_str("cannot resume subagent with model provider `");
                m.append(stored_thread.model_provider.as_str());
                m.append("`: ");
                m.append(err.message());
                Err(CodexErr::InvalidRequest(m))
            },
        }
    }
}

/// Every history fork of a spawned child is checked against its parent, whether it
/// forks the full history or only the last turns: with any fork mode, the parent
/// recorded in a thread-spawn source is the one whose provider the child must match.
/// Without a fork mode, or without a thread-spawn parent, nothing is checked.
pub proof fn law_every_history_fork_checks_the_parent(
    fork_mode: SpawnAgentForkMode,
    parent_thread_id: ThreadId,
    depth: u32,
    agent_path: Option<crate::protocol::AgentPath>,
    other_source: SessionSource,
)
    ensures
        history_fork_parent(
            Some(&SessionSource::SubAgent(SubAgentSource::ThreadSpawn { parent_thread_id, depth, agent_path })),
            Some(&fork_mode),
        ) == Some(parent_thread_id),
        history_fork_parent(Some(&other_source), None) is None,
        history_fork_parent(None, Some(&fork_mode)) is None,
        !(other_source matches SessionSource::SubAgent(SubAgentSource::ThreadSpawn { .. }))
            ==> history_fork_parent(Some(&other_source), Some(&fork_mode)) is None,
{
}

/// The baseline that a parent hands down names a provider and carries that
/// provider's definition: a missing parent hands down the session's own provider, a
/// loaded parent its own provider, and a parent known only from its record the
/// provider it recorded, with the definition that this identifier has in the
/// session: the session's own provider when the identifiers agree, otherwise the
/// definition that the session configures for it, which the user must allow.
pub proof fn law_handed_down_baseline_is_what_its_identifier_names(
    state: ThreadManagerState,
    config: Config,
    parent_thread_id: Option<ThreadId>,
    b: BaselineView,
)
    requires
        parent_baseline(state, config, parent_thread_id) == Ok::<BaselineView, CodexErrView>(b),
    ensures
        parent_thread_id is None ==> b.id == config.model_provider_id@ && b.provider
            == config.model_provider@,
        parent_thread_id is Some && live_config(state.live_threads@, parent_thread_id->0) is Some
            ==> b.id == live_config(state.live_threads@, parent_thread_id->0)->0.model_provider_id@
            && b.provider == live_config(state.live_threads@, parent_thread_id->0)->0.model_provider@,
        parent_thread_id is Some && live_config(state.live_threads@, parent_thread_id->0) is None
            ==> (stored_record(state.stored_threads@, parent_thread_id->0) matches Some(record)
            && b.id == record.model_provider@),
        parent_thread_id is Some && live_config(state.live_threads@, parent_thread_id->0) is None
            && b.id == config.model_provider_id@ ==> b.provider == config.model_provider@,
        parent_thread_id is Some && live_config(state.live_threads@, parent_thread_id->0) is None
            && b.id != config.model_provider_id@ ==> user_allows(config, b.id) && provider_lookup(
            config.model_providers.entries@,
            b.id,
        ) == Some(b.provider),
{
}

} // verus!
