//! Model providers: what a provider is, and the providers that a configuration defines.

use vstd::prelude::*;

use crate::text::{option_chars, option_str_eq, option_string_copy, str_eq};

verus! {

/// The wire protocol that a provider speaks.
#[derive(Debug, PartialEq, Eq, Clone, Copy, Structural)]
pub enum WireApi {
    Responses,
    Chat,
}

/// A model provider as a configuration defines it.
#[derive(Debug, PartialEq, Eq)]
pub struct ModelProviderInfo {
    pub name: String,
    pub base_url: Option<String>,
    pub experimental_bearer_token: Option<String>,
    pub wire_api: WireApi,
    pub request_max_retries: Option<u64>,
    pub stream_max_retries: Option<u64>,
}

/// A provider, as sequences of characters.
pub struct ProviderView {
    pub name: Seq<char>,
    pub base_url: Option<Seq<char>>,
    pub experimental_bearer_token: Option<Seq<char>>,
    pub wire_api: WireApi,
    pub request_max_retries: Option<u64>,
    pub stream_max_retries: Option<u64>,
}

impl View for ModelProviderInfo {
    type V = ProviderView;

    open spec fn view(&self) -> ProviderView {
        ProviderView {
            name: self.name@,
            base_url: option_chars(self.base_url),
            experimental_bearer_token: option_chars(self.experimental_bearer_token),
            wire_api: self.wire_api,
            request_max_retries: self.request_max_retries,
            stream_max_retries: self.stream_max_retries,
        }
    }
}

/// The name under which the OpenAI provider is defined.
pub open spec fn openai_provider_name() -> Seq<char> {
    "OpenAI"@
}

/// A provider is the OpenAI provider when it carries the OpenAI provider's name.
pub open spec fn is_openai_provider(p: ProviderView) -> bool {
    p.name == openai_provider_name()
}

impl ModelProviderInfo {
    /// Whether this is the OpenAI provider.
    pub fn is_openai(&self) -> (r: bool)
        ensures
            r == is_openai_provider(self@),
    {
        str_eq(self.name.as_str(), "OpenAI")
    }

    /// Whether two provider definitions are the same.
    pub fn same_as(&self, other: &ModelProviderInfo) -> (r: bool)
        ensures
            r == (self@ == other@),
    {
        str_eq(self.name.as_str(), other.name.as_str()) && option_str_eq(
            &self.base_url,
            &other.base_url,
        ) && option_str_eq(&self.experimental_bearer_token, &other.experimental_bearer_token)
            && self.wire_api == other.wire_api && self.request_max_retries
            == other.request_max_retries && self.stream_max_retries == other.stream_max_retries
    }

    /// A copy of this definition.
    pub fn duplicate(&self) -> (r: ModelProviderInfo)
        ensures
            r@ == self@,
    {
        ModelProviderInfo {
            name: self.name.clone(),
            base_url: option_string_copy(&self.base_url),
            experimental_bearer_token: option_string_copy(&self.experimental_bearer_token),
            wire_api: self.wire_api,
            request_max_retries: self.request_max_retries,
            stream_max_retries: self.stream_max_retries,
        }
    }
}

/// A provider definition under its identifier.
#[derive(Debug, PartialEq, Eq)]
pub struct ProviderEntry {
    pub id: String,
    pub info: ModelProviderInfo,
}

/// The providers that a configuration defines, by identifier.
#[derive(Debug, PartialEq, Eq)]
pub struct ModelProviders {
    pub entries: Vec<ProviderEntry>,
}

/// The provider stored under `id`: the first entry with that identifier.
pub open spec fn provider_lookup(entries: Seq<ProviderEntry>, id: Seq<char>) -> Option<ProviderView>
    decreases entries.len(),
{
    if entries.len() == 0 {
        None
    } else if entries[0].id@ == id {
        Some(entries[0].info@)
    } else {
        provider_lookup(entries.drop_first(), id)
    }
}

/// The index of the first entry with identifier `id`.
pub open spec fn first_provider_index(entries: Seq<ProviderEntry>, id: Seq<char>, k: int) -> bool {
    &&& 0 <= k < entries.len()
    &&& entries[k].id@ == id
    &&& forall|j: int| 0 <= j < k ==> entries[j].id@ != id
}

proof fn lemma_provider_lookup_at(entries: Seq<ProviderEntry>, id: Seq<char>, k: int)
    requires
        first_provider_index(entries, id, k),
    ensures
        provider_lookup(entries, id) == Some(entries[k].info@),
    decreases k,
{
    if k > 0 {
        assert(first_provider_index(entries.drop_first(), id, k - 1)) by {
            assert forall|j: int| 0 <= j < k - 1 implies entries.drop_first()[j].id@ != id by {
                assert(entries.drop_first()[j] == entries[j + 1]);
            }
        }
        lemma_provider_lookup_at(entries.drop_first(), id, k - 1);
    }
}

proof fn lemma_provider_lookup_absent(entries: Seq<ProviderEntry>, id: Seq<char>)
    requires
        forall|j: int| 0 <= j < entries.len() ==> entries[j].id@ != id,
    ensures
        provider_lookup(entries, id) is None,
    decreases entries.len(),
{
    if entries.len() > 0 {
        assert forall|j: int| 0 <= j < entries.len() - 1 implies entries.drop_first()[j].id@ != id by {
            assert(entries.drop_first()[j] == entries[j + 1]);
        }
        lemma_provider_lookup_absent(entries.drop_first(), id);
    }
}

proof fn lemma_provider_lookup_update(
    entries: Seq<ProviderEntry>,
    k: int,
    e: ProviderEntry,
    other: Seq<char>,
)
    requires
        0 <= k < entries.len(),
        entries[k].id@ == e.id@,
        forall|j: int| 0 <= j < k ==> entries[j].id@ != e.id@,
    ensures
        provider_lookup(entries.update(k, e), e.id@) == Some(e.info@),
        other != e.id@ ==> provider_lookup(entries.update(k, e), other) == provider_lookup(
            entries,
            other,
        ),
    decreases entries.len(),
{
    if k > 0 {
        assert(entries.update(k, e).drop_first() =~= entries.drop_first().update(k - 1, e));
        lemma_provider_lookup_update(entries.drop_first(), k - 1, e, other);
    } else {
        assert(entries.update(k, e).drop_first() =~= entries.drop_first());
        assert(entries.update(k, e)[0] == e);
    }
}

proof fn lemma_provider_lookup_push(entries: Seq<ProviderEntry>, e: ProviderEntry, other: Seq<char>)
    requires
        forall|j: int| 0 <= j < entries.len() ==> entries[j].id@ != e.id@,
    ensures
        provider_lookup(entries.push(e), e.id@) == Some(e.info@),
        other != e.id@ ==> provider_lookup(entries.push(e), other) == provider_lookup(
            entries,
            other,
        ),
    decreases entries.len(),
{
    if entries.len() > 0 {
        assert(entries.push(e).drop_first() =~= entries.drop_first().push(e));
        lemma_provider_lookup_push(entries.drop_first(), e, other);
    } else {
        assert(entries.push(e).drop_first() =~= Seq::<ProviderEntry>::empty());
        assert(entries.push(e)[0] == e);
        assert(provider_lookup(Seq::<ProviderEntry>::empty(), other) is None);
    }
}

impl ModelProviders {
    pub fn new() -> (r: ModelProviders)
        ensures
            r.entries@.len() == 0,
            forall|id: Seq<char>| provider_lookup(r.entries@, id) is None,
    {
        ModelProviders { entries: Vec::new() }
    }

    /// The provider defined under `id`.
    pub fn get(&self, id: &str) -> (r: Option<&ModelProviderInfo>)
        ensures
            match r {
                Some(p) => provider_lookup(self.entries@, id@) == Some(p@),
                None => provider_lookup(self.entries@, id@) is None,
            },
    {
        let n = self.entries.len();
        let mut i: usize = 0;
        while i < n
            invariant
                n == self.entries@.len(),
                0 <= i <= n,
                forall|j: int| 0 <= j < i ==> self.entries@[j].id@ != id@,
            decreases n - i,
        {
            if str_eq(self.entries[i].id.as_str(), id) {
                proof {
                    lemma_provider_lookup_at(self.entries@, id@, i as int);
                }
                return Some(&self.entries[i].info);
            }
            i += 1;
        }
        proof {
            lemma_provider_lookup_absent(self.entries@, id@);
        }
        None
    }

    /// Defines `info` under `id`, replacing an earlier definition.
    pub fn insert(&mut self, id: String, info: ModelProviderInfo)
        ensures
            provider_lookup(final(self).entries@, id@) == Some(info@),
            forall|other: Seq<char>|
                other != id@ ==> provider_lookup(final(self).entries@, other) == provider_lookup(
                    old(self).entries@,
                    other,
                ),
    {
        let n = self.entries.len();
        let mut i: usize = 0;
        while i < n
            invariant
                n == self.entries@.len(),
                self.entries@ == old(self).entries@,
                0 <= i <= n,
                forall|j: int| 0 <= j < i ==> self.entries@[j].id@ != id@,
            decreases n - i,
        {
            if str_eq(self.entries[i].id.as_str(), id.as_str()) {
                let ghost before = self.entries@;
                let e = ProviderEntry { id, info };
                proof {
                    assert forall|other: Seq<char>| other != e.id@ implies provider_lookup(
                        before.update(i as int, e),
                        other,
                    ) == provider_lookup(before, other) by {
                        lemma_provider_lookup_update(before, i as int, e, other);
                    }
                    lemma_provider_lookup_update(before, i as int, e, e.id@);
                }
                self.entries.set(i, e);
                return;
            }
            i += 1;
        }
        let ghost before = self.entries@;
        let e = ProviderEntry { id, info };
        proof {
            assert forall|other: Seq<char>| other != e.id@ implies provider_lookup(
                before.push(e),
                other,
            ) == provider_lookup(before, other) by {
                lemma_provider_lookup_push(before, e, other);
            }
            lemma_provider_lookup_push(before, e, e.id@);
        }
        self.entries.push(e);
    }
}

} // verus!
