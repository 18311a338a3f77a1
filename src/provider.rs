//! The registry of LLM providers and whether each one is enabled.

use crate::error::{UntraceError, UntraceResult};
use crate::string_map::{
    keys_unique, lemma_map_of_dom, lemma_map_of_last, lemma_map_of_update_last,
    lemma_push_keeps_keys_unique, lemma_update_keeps_keys_unique, map_of,
};
use crate::types::Provider;
use vstd::prelude::*;

verus! {

/// A provider as a registry entry: its name, then its version and whether it
/// is enabled.
pub open spec fn provider_entry(p: Provider) -> (Seq<char>, (Seq<char>, bool)) {
    (p.name@, (p.version@, p.enabled))
}

/// The views of a sequence of providers.
pub open spec fn provider_views(ps: Seq<Provider>) -> Seq<(Seq<char>, Seq<char>, bool)> {
    ps.map_values(|p: Provider| p@)
}

/// The views of a sequence of provider references.
pub open spec fn provider_ref_views(ps: Seq<&Provider>) -> Seq<(Seq<char>, Seq<char>, bool)> {
    ps.map_values(|p: &Provider| p@)
}

/// Whether a provider view is enabled.
pub open spec fn is_enabled_view(p: (Seq<char>, Seq<char>, bool)) -> bool {
    p.2
}

/// The message of a lookup of an unknown provider.
pub open spec fn not_found_message(name: Seq<char>) -> Seq<char> {
    "Provider '"@ + name + "' not found"@
}

/// The providers, keyed by name. Registering a name again replaces the entry
/// in place, so the registry holds one entry per name, in the order the names
/// were first registered.
#[derive(Debug, Clone)]
pub struct ProviderRegistry {
    providers: Vec<Provider>,
}

impl View for ProviderRegistry {
    type V = Map<Seq<char>, (Seq<char>, bool)>;

    /// Each registered name with its version and whether it is enabled.
    open spec fn view(&self) -> Map<Seq<char>, (Seq<char>, bool)> {
        map_of(self.spec_entries())
    }
}

impl ProviderRegistry {
    /// The providers in registration order.
    pub closed spec fn spec_providers(&self) -> Seq<(Seq<char>, Seq<char>, bool)> {
        provider_views(self.providers@)
    }

    /// The providers in registration order, as name and state.
    pub open spec fn spec_entries(&self) -> Seq<(Seq<char>, (Seq<char>, bool))> {
        self.spec_providers().map_values(
            |p: (Seq<char>, Seq<char>, bool)| (p.0, (p.1, p.2)),
        )
    }

    /// An empty registry.
    pub fn new() -> (r: ProviderRegistry)
        ensures
            r.spec_providers() == Seq::<(Seq<char>, Seq<char>, bool)>::empty(),
            r@ == Map::<Seq<char>, (Seq<char>, bool)>::empty(),
            keys_unique(r.spec_entries()),
    {
        let r = ProviderRegistry { providers: Vec::new() };
        assert(r.spec_providers() =~= Seq::<(Seq<char>, Seq<char>, bool)>::empty());
        assert(r.spec_entries() =~= Seq::<(Seq<char>, (Seq<char>, bool))>::empty());
        r
    }

    /// The position of the last provider named `name`, if any.
    fn position(&self, name: &str) -> (r: Option<usize>)
        ensures
            match r {
                Some(i) => {
                    &&& i < self.spec_entries().len()
                    &&& self.spec_entries()[i as int].0 == name@
                    &&& forall|j: int|
                        i < j < self.spec_entries().len() ==> #[trigger] self.spec_entries()[j].0
                            != name@
                },
                None => forall|j: int|
                    0 <= j < self.spec_entries().len() ==> #[trigger] self.spec_entries()[j].0
                        != name@,
            },
    {
        let wanted = name.to_owned();
        let mut i: usize = self.providers.len();
        while i > 0
            invariant
                i <= self.providers@.len(),
                wanted@ == name@,
                forall|j: int|
                    i <= j < self.spec_entries().len() ==> #[trigger] self.spec_entries()[j].0
                        != name@,
            decreases i,
        {
            i = i - 1;
            if self.providers[i].name == wanted {
                return Some(i);
            }
        }
        None
    }

    /// Registers a provider, replacing any provider of the same name.
    pub fn register(&mut self, provider: Provider)
        ensures
            final(self)@ == old(self)@.insert(provider.name@, (provider.version@, provider.enabled)),
            keys_unique(old(self).spec_entries()) ==> keys_unique(final(self).spec_entries()),
    {
        let ghost before = self.spec_entries();
        proof {
            lemma_map_of_dom(before);
        }
        match self.position(provider.name.as_str()) {
            Some(i) => {
                proof {
                    lemma_map_of_update_last(before, i as int, (provider.version@, provider.enabled));
                    if keys_unique(before) {
                        lemma_update_keeps_keys_unique(
                            before,
                            i as int,
                            (provider.version@, provider.enabled),
                        );
                    }
                }
                self.providers.set(i, provider);
                assert(self.spec_entries() =~= before.update(
                    i as int,
                    (before[i as int].0, (provider.version@, provider.enabled)),
                ));
            },
            None => {
                let ghost entry = provider_entry(provider);
                proof {
                    if keys_unique(before) {
                        lemma_push_keeps_keys_unique(before, entry);
                    }
                }
                self.providers.push(provider);
                assert(self.spec_entries() =~= before.push(entry));
                assert(self.spec_entries().drop_last() =~= before);
            },
        }
    }

    /// The provider named `name`, if registered.
    pub fn get(&self, name: &str) -> (r: Option<&Provider>)
        ensures
            r.is_some() == self@.contains_key(name@),
            r.is_some() ==> r.unwrap().name@ == name@ && (r.unwrap().version@, r.unwrap().enabled)
                == self@[name@],
    {
        proof {
            lemma_map_of_dom(self.spec_entries());
        }
        match self.position(name) {
            Some(i) => {
                proof {
                    lemma_map_of_last(self.spec_entries(), i as int);
                }
                Some(&self.providers[i])
            },
            None => None,
        }
    }

    /// All providers, in registration order.
    pub fn get_all(&self) -> (r: Vec<&Provider>)
        ensures
            provider_ref_views(r@) == self.spec_providers(),
    {
        let mut out: Vec<&Provider> = Vec::new();
        let mut i: usize = 0;
        while i < self.providers.len()
            invariant
                i <= self.providers@.len(),
                provider_ref_views(out@) == self.spec_providers().take(i as int),
            decreases self.providers@.len() - i,
        {
            let ghost before = provider_ref_views(out@);
            out.push(&self.providers[i]);
            assert(provider_ref_views(out@) =~= before.push(self.providers@[i as int]@));
            assert(self.spec_providers().take(i + 1) =~= self.spec_providers().take(i as int).push(
                self.providers@[i as int]@,
            ));
            i = i + 1;
        }
        assert(self.spec_providers().take(self.providers@.len() as int) =~= self.spec_providers());
        out
    }

    /// The enabled providers, in registration order.
    pub fn get_enabled(&self) -> (r: Vec<&Provider>)
        ensures
            provider_ref_views(r@) == self.spec_providers().filter(
                |p: (Seq<char>, Seq<char>, bool)| is_enabled_view(p),
            ),
    {
        let ghost pred = |p: (Seq<char>, Seq<char>, bool)| is_enabled_view(p);
        let mut out: Vec<&Provider> = Vec::new();
        let mut i: usize = 0;
        proof {
            reveal(Seq::filter);
            assert(self.spec_providers().take(0).filter(pred) =~= Seq::<
                (Seq<char>, Seq<char>, bool),
            >::empty());
        }
        while i < self.providers.len()
            invariant
                i <= self.providers@.len(),
                pred == (|p: (Seq<char>, Seq<char>, bool)| is_enabled_view(p)),
                provider_ref_views(out@) == self.spec_providers().take(i as int).filter(pred),
            decreases self.providers@.len() - i,
        {
            let ghost before = provider_ref_views(out@);
            let ghost next = self.spec_providers().take(i + 1);
            proof {
                reveal(Seq::filter);
                assert(next.drop_last() =~= self.spec_providers().take(i as int));
                assert(next.last() == self.providers@[i as int]@);
            }
            if self.providers[i].enabled {
                out.push(&self.providers[i]);
                assert(provider_ref_views(out@) =~= before.push(self.providers@[i as int]@));
            }
            i = i + 1;
        }
        assert(self.spec_providers().take(self.providers@.len() as int) =~= self.spec_providers());
        out
    }

    /// Sets whether the provider named `name` is enabled.
    fn set_enabled(&mut self, name: &str, enabled: bool) -> (r: UntraceResult<()>)
        ensures
            r is Ok <==> old(self)@.contains_key(name@),
            r is Ok ==> final(self)@ == old(self)@.insert(name@, (old(self)@[name@].0, enabled)),
            r is Err ==> final(self)@ == old(self)@ && r->Err_0 is Instrumentation
                && r->Err_0.spec_message() == not_found_message(name@),
            keys_unique(old(self).spec_entries()) ==> keys_unique(final(self).spec_entries()),
    {
        let ghost before = self.spec_entries();
        proof {
            lemma_map_of_dom(before);
        }
        match self.position(name) {
            Some(i) => {
                proof {
                    lemma_map_of_last(before, i as int);
                    lemma_map_of_update_last(before, i as int, (before[i as int].1.0, enabled));
                    if keys_unique(before) {
                        lemma_update_keeps_keys_unique(before, i as int, (before[i as int].1.0, enabled));
                    }
                }
                let updated = Provider {
                    name: self.providers[i].name.clone(),
                    version: self.providers[i].version.clone(),
                    enabled,
                };
                self.providers.set(i, updated);
                assert(self.spec_entries() =~= before.update(
                    i as int,
                    (before[i as int].0, (before[i as int].1.0, enabled)),
                ));
                Ok(())
            },
            None => {
                assert(self.spec_entries() == before);
                let message = "Provider '".to_owned().concat(name).concat("' not found");
                Err(UntraceError::instrumentation(message.as_str()))
            },
        }
    }

    /// Enables the provider named `name`; fails when no provider has that name.
    pub fn enable(&mut self, name: &str) -> (r: UntraceResult<()>)
        ensures
            r is Ok <==> old(self)@.contains_key(name@),
            r is Ok ==> final(self)@ == old(self)@.insert(name@, (old(self)@[name@].0, true)),
            r is Err ==> final(self)@ == old(self)@ && r->Err_0 is Instrumentation
                && r->Err_0.spec_message() == not_found_message(name@),
            keys_unique(old(self).spec_entries()) ==> keys_unique(final(self).spec_entries()),
    {
        self.set_enabled(name, true)
    }

    /// Disables the provider named `name`; fails when no provider has that name.
    pub fn disable(&mut self, name: &str) -> (r: UntraceResult<()>)
        ensures
            r is Ok <==> old(self)@.contains_key(name@),
            r is Ok ==> final(self)@ == old(self)@.insert(name@, (old(self)@[name@].0, false)),
            r is Err ==> final(self)@ == old(self)@ && r->Err_0 is Instrumentation
                && r->Err_0.spec_message() == not_found_message(name@),
            keys_unique(old(self).spec_entries()) ==> keys_unique(final(self).spec_entries()),
    {
        self.set_enabled(name, false)
    }

    /// Whether a provider named `name` is registered and enabled.
    pub fn is_enabled(&self, name: &str) -> (r: bool)
        ensures
            r == (self@.contains_key(name@) && self@[name@].1),
    {
        match self.get(name) {
            Some(p) => p.enabled,
            None => false,
        }
    }
}

impl Default for ProviderRegistry {
    fn default() -> (r: Self)
        ensures
            r@ == Map::<Seq<char>, (Seq<char>, bool)>::empty(),
    {
        Self::new()
    }
}

/// The providers that the SDK registers by default, each at version 1.0.0 and
/// enabled.
pub open spec fn default_provider_views() -> Seq<(Seq<char>, Seq<char>, bool)> {
    seq![
        ("openai"@, "1.0.0"@, true),
        ("anthropic"@, "1.0.0"@, true),
        ("google"@, "1.0.0"@, true),
        ("microsoft"@, "1.0.0"@, true),
        ("aws"@, "1.0.0"@, true),
        ("cohere"@, "1.0.0"@, true),
    ]
}

/// The default providers as registry entries.
pub open spec fn default_provider_entries() -> Seq<(Seq<char>, (Seq<char>, bool))> {
    default_provider_views().map_values(|p: (Seq<char>, Seq<char>, bool)| (p.0, (p.1, p.2)))
}

fn enabled_provider(name: &str) -> (r: Provider)
    ensures
        r@ == (name@, "1.0.0"@, true),
{
    Provider { name: name.to_owned(), version: "1.0.0".to_owned(), enabled: true }
}

/// The providers that the SDK registers by default.
pub fn get_default_providers() -> (r: Vec<Provider>)
    ensures
        provider_views(r@) == default_provider_views(),
{
    let mut r: Vec<Provider> = Vec::new();
    r.push(enabled_provider("openai"));
    r.push(enabled_provider("anthropic"));
    r.push(enabled_provider("google"));
    r.push(enabled_provider("microsoft"));
    r.push(enabled_provider("aws"));
    r.push(enabled_provider("cohere"));
    assert(provider_views(r@) =~= default_provider_views());
    r
}

/// Registers the default providers, replacing registered providers of the same
/// names.
pub fn register_default_providers(registry: &mut ProviderRegistry)
    ensures
        final(registry)@ == old(registry)@.union_prefer_right(map_of(default_provider_entries())),
{
    let defaults = get_default_providers();
    let ghost all = default_provider_entries();
    let ghost start = registry@;
    let mut i: usize = 0;
    while i < defaults.len()
        invariant
            i <= defaults@.len(),
            provider_views(defaults@) == default_provider_views(),
            all == default_provider_entries(),
            registry@ == start.union_prefer_right(map_of(all.take(i as int))),
        decreases defaults@.len() - i,
    {
        let provider = defaults[i].clone();
        assert(provider_views(defaults@)[i as int] == defaults@[i as int]@);
        registry.register(provider);
        proof {
            assert(all.take(i + 1).drop_last() =~= all.take(i as int));
            assert(registry@ =~= start.union_prefer_right(map_of(all.take(i + 1))));
        }
        i = i + 1;
    }
    assert(all.take(defaults@.len() as int) =~= all);
}

/// After a provider is registered, it is enabled exactly when it was registered
/// enabled; after it is disabled it is not enabled, and its version is kept.
pub proof fn lemma_register_then_disable(
    before: Map<Seq<char>, (Seq<char>, bool)>,
    name: Seq<char>,
    version: Seq<char>,
    enabled: bool,
)
    ensures
        ({
            let registered = before.insert(name, (version, enabled));
            let disabled = registered.insert(name, (registered[name].0, false));
            &&& registered.contains_key(name) && registered[name].1 == enabled
            &&& disabled.contains_key(name) && !disabled[name].1
            &&& disabled[name].0 == version
        }),
{
}

} // verus!
