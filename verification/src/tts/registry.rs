//! The registry of speech-synthesis engines, kept in order of engine id.
use crate::text::{
    lemma_precedes_irreflexive, lemma_precedes_total, lemma_precedes_transitive, precedes, str_eq,
    str_precedes,
};
use crate::tts::types::{CapabilitiesView, EngineCapabilities};
use vstd::prelude::*;

verus! {

/// Where VOICEVOX listens unless told otherwise.
pub const DEFAULT_VOICEVOX_URL: &'static str = "http://127.0.0.1:50021";

/// Where Voiceger listens unless told otherwise.
pub const DEFAULT_VOICEGER_URL: &'static str = "http://localhost:9880";

/// Where a VOICEVOX-compatible engine listens unless told otherwise.
pub const DEFAULT_GENERIC_URL: &'static str = "http://localhost:10101";

/// Voiceger's default prompt language.
pub const DEFAULT_VOICEGER_PROMPT_LANG: &'static str = "ja";

/// What the registry reads of an engine when it is registered. Each method returns
/// what the matching spec function says. An implementation states its values by
/// overriding the spec functions; one that does not leaves them unspecified, and then
/// only an implementation outside verification can meet the methods' contracts.
pub trait EngineInfo {
    /// The engine's id.
    open spec fn spec_engine_id(&self) -> Seq<char> {
        vstd::pervasive::arbitrary()
    }

    /// The engine's display name.
    open spec fn spec_display_name(&self) -> Seq<char> {
        vstd::pervasive::arbitrary()
    }

    /// The engine's capabilities.
    open spec fn spec_capabilities(&self) -> CapabilitiesView {
        vstd::pervasive::arbitrary()
    }

    fn engine_id(&self) -> (r: &'static str)
        ensures
            r@ == self.spec_engine_id(),
    ;

    fn display_name(&self) -> (r: &'static str)
        ensures
            r@ == self.spec_display_name(),
    ;

    fn capabilities(&self) -> (r: EngineCapabilities)
        ensures
            r@ == self.spec_capabilities(),
    ;
}

/// The metadata an engine reports of itself.
pub open spec fn info_of<T: EngineInfo>(e: T) -> MetadataView {
    MetadataView {
        engine_id: e.spec_engine_id(),
        display_name: e.spec_display_name(),
        capabilities: e.spec_capabilities(),
    }
}

/// The outcome of registering metadata `m` with `provider` into a registry that held
/// `before`: success exactly when `m`'s id is new, and then the registry gains that one
/// entry; otherwise the error names the id and nothing changes.
pub open spec fn registration_outcome<F, E>(
    before: Map<Seq<char>, RegisteredView<F, E>>,
    after: Map<Seq<char>, RegisteredView<F, E>>,
    r: Result<(), RegistryError>,
    m: MetadataView,
    provider: EngineProvider<F, E>,
) -> bool {
    &&& (r is Ok <==> !before.dom().contains(m.engine_id))
    &&& r is Ok ==> after == before.insert(m.engine_id, registered(m, provider))
    &&& r matches Err(RegistryError::AlreadyRegistered(id)) ==> id@ == m.engine_id && after == before
}

/// How the registry hands out an engine: a constructor run on every request, or one
/// engine handed out (cloned) every time.
pub enum EngineProvider<F, E> {
    Factory(F),
    Instance(E),
}

/// The description of a registered engine.
#[derive(Debug, Clone, PartialEq, Eq)]
pub struct EngineMetadata {
    pub engine_id: &'static str,
    pub display_name: &'static str,
    pub capabilities: EngineCapabilities,
}

/// The content of an `EngineMetadata`.
pub struct MetadataView {
    pub engine_id: Seq<char>,
    pub display_name: Seq<char>,
    pub capabilities: CapabilitiesView,
}

impl View for EngineMetadata {
    type V = MetadataView;

    open spec fn view(&self) -> MetadataView {
        MetadataView {
            engine_id: self.engine_id@,
            display_name: self.display_name@,
            capabilities: self.capabilities@,
        }
    }
}

/// What the registry holds for one engine id.
pub struct RegisteredView<F, E> {
    pub display_name: Seq<char>,
    pub capabilities: CapabilitiesView,
    pub provider: EngineProvider<F, E>,
}

/// The entry that registering `metadata` with `provider` adds.
pub open spec fn registered<F, E>(metadata: MetadataView, provider: EngineProvider<F, E>) -> RegisteredView<F, E> {
    RegisteredView {
        display_name: metadata.display_name,
        capabilities: metadata.capabilities,
        provider,
    }
}

/// Why a registration was refused.
#[derive(Debug, Clone, Copy)]
pub enum RegistryError {
    /// An engine with this id is registered already.
    AlreadyRegistered(&'static str),
}

impl RegistryError {
    /// The message the application shows for this error.
    pub fn message(&self) -> (m: String)
        ensures
            match self {
                RegistryError::AlreadyRegistered(id) => m@ == "Engine '"@ + id@
                    + "' is already registered"@,
            },
    {
        match self {
            RegistryError::AlreadyRegistered(id) => {
                let head = crate::text::concat_str("Engine '", id);
                head.concat("' is already registered")
            },
        }
    }
}

struct EngineEntry<F, E> {
    engine_id: &'static str,
    display_name: &'static str,
    capabilities: EngineCapabilities,
    provider: EngineProvider<F, E>,
}

impl<F, E> EngineEntry<F, E> {
    spec fn content(&self) -> RegisteredView<F, E> {
        RegisteredView {
            display_name: self.display_name@,
            capabilities: self.capabilities@,
            provider: self.provider,
        }
    }
}

/// Entries ordered strictly by engine id (so no id occurs twice).
spec fn ordered_ids<F, E>(s: Seq<EngineEntry<F, E>>) -> bool {
    forall|i: int, j: int|
        0 <= i < j < s.len() ==> precedes(#[trigger] s[i].engine_id@, #[trigger] s[j].engine_id@)
}

spec fn holds_id<F, E>(s: Seq<EngineEntry<F, E>>, k: Seq<char>) -> bool {
    exists|i: int| 0 <= i < s.len() && (#[trigger] s[i]).engine_id@ == k
}

spec fn position_of<F, E>(s: Seq<EngineEntry<F, E>>, k: Seq<char>) -> int {
    choose|i: int| 0 <= i < s.len() && (#[trigger] s[i]).engine_id@ == k
}

/// The registry's content: engine id to what is held for it.
spec fn entries_map<F, E>(s: Seq<EngineEntry<F, E>>) -> Map<Seq<char>, RegisteredView<F, E>> {
    Map::new(|k: Seq<char>| holds_id(s, k), |k: Seq<char>| s[position_of(s, k)].content())
}

proof fn lemma_entries_map_at<F, E>(s: Seq<EngineEntry<F, E>>, i: int)
    requires
        ordered_ids(s),
        0 <= i < s.len(),
    ensures
        entries_map(s).dom().contains(s[i].engine_id@),
        entries_map(s)[s[i].engine_id@] == s[i].content(),
{
    let k = s[i].engine_id@;
    assert(holds_id(s, k));
    let j = position_of(s, k);
    if j != i {
        if j < i {
            assert(precedes(s[j].engine_id@, s[i].engine_id@));
        } else {
            assert(precedes(s[i].engine_id@, s[j].engine_id@));
        }
        lemma_precedes_irreflexive(k);
    }
}

proof fn lemma_entries_map_insert<F, E>(s: Seq<EngineEntry<F, E>>, p: int, x: EngineEntry<F, E>)
    requires
        ordered_ids(s),
        0 <= p <= s.len(),
        forall|j: int| 0 <= j < p ==> precedes(#[trigger] s[j].engine_id@, x.engine_id@),
        forall|j: int| p <= j < s.len() ==> precedes(x.engine_id@, #[trigger] s[j].engine_id@),
    ensures
        ordered_ids(s.insert(p, x)),
        !entries_map(s).dom().contains(x.engine_id@),
        entries_map(s.insert(p, x)) == entries_map(s).insert(x.engine_id@, x.content()),
{
    let t = s.insert(p, x);
    assert(ordered_ids(t)) by {
        assert forall|i: int, j: int| 0 <= i < j < t.len() implies precedes(
            #[trigger] t[i].engine_id@,
            #[trigger] t[j].engine_id@,
        ) by {
            if i < p && j == p {
            } else if i < p && j > p {
                assert(t[j] == s[j - 1]);
                if j - 1 > i {
                    assert(precedes(s[i].engine_id@, s[j - 1].engine_id@));
                } else {
                    assert(i == j - 1);
                    lemma_precedes_transitive(s[i].engine_id@, x.engine_id@, s[j - 1].engine_id@);
                }
            } else if i == p {
                assert(t[j] == s[j - 1]);
            } else if i > p {
                assert(t[i] == s[i - 1]);
                assert(t[j] == s[j - 1]);
            }
        }
    }
    assert(!holds_id(s, x.engine_id@)) by {
        if holds_id(s, x.engine_id@) {
            let j = choose|j: int| 0 <= j < s.len() && (#[trigger] s[j]).engine_id@ == x.engine_id@;
            lemma_precedes_irreflexive(x.engine_id@);
            if j < p {
                assert(precedes(s[j].engine_id@, x.engine_id@));
            } else {
                assert(precedes(x.engine_id@, s[j].engine_id@));
            }
        }
    }
    let m = entries_map(s).insert(x.engine_id@, x.content());
    assert forall|k: Seq<char>| #[trigger] entries_map(t).dom().contains(k) <==> m.dom().contains(k) by {
        if holds_id(t, k) {
            let i = choose|i: int| 0 <= i < t.len() && (#[trigger] t[i]).engine_id@ == k;
            if i < p {
                assert(s[i] == t[i]);
                assert(holds_id(s, k));
            } else if i > p {
                assert(s[i - 1] == t[i]);
                assert(holds_id(s, k));
            }
        }
        if holds_id(s, k) {
            let j = choose|j: int| 0 <= j < s.len() && (#[trigger] s[j]).engine_id@ == k;
            if j < p {
                assert(t[j] == s[j]);
            } else {
                assert(t[j + 1] == s[j]);
            }
            assert(holds_id(t, k));
        }
        if k == x.engine_id@ {
            assert(t[p] == x);
            assert(holds_id(t, k));
        }
    }
    assert forall|k: Seq<char>| #[trigger] entries_map(t).dom().contains(k) implies entries_map(t)[k]
        == m[k] by {
        if k == x.engine_id@ {
            assert(t[p] == x);
            lemma_entries_map_at(t, p);
        } else {
            assert(holds_id(s, k));
            let j = choose|j: int| 0 <= j < s.len() && (#[trigger] s[j]).engine_id@ == k;
            lemma_entries_map_at(s, j);
            if j < p {
                assert(t[j] == s[j]);
                lemma_entries_map_at(t, j);
            } else {
                assert(t[j + 1] == s[j]);
                lemma_entries_map_at(t, j + 1);
            }
        }
    }
    assert(entries_map(t) =~= m);
}

/// Entries in strict order of engine id, whose constructors may all be called.
spec fn entries_ok<F: Fn() -> E, E>(s: Seq<EngineEntry<F, E>>) -> bool {
    &&& ordered_ids(s)
    &&& forall|i: int|
        0 <= i < s.len() ==> match (#[trigger] s[i]).provider {
            EngineProvider::Factory(f) => call_requires(f, ()),
            EngineProvider::Instance(_) => true,
        }
}

/// The engines the application can use, by engine id. `F` is the type of the
/// registered constructors, `E` that of the engines handed out.
#[verifier::reject_recursive_types(E)]
pub struct EngineRegistry<F: Fn() -> E, E: Clone> {
    entries: Vec<EngineEntry<F, E>>,
}

impl<F: Fn() -> E, E: Clone> View for EngineRegistry<F, E> {
    type V = Map<Seq<char>, RegisteredView<F, E>>;

    closed spec fn view(&self) -> Map<Seq<char>, RegisteredView<F, E>> {
        entries_map(self.entries@)
    }
}

impl<F: Fn() -> E, E: Clone> EngineRegistry<F, E> {
    /// The registry's invariant: entries are kept in strict order of engine id, and
    /// every constructor may be called.
    #[verifier::type_invariant]
    spec fn well_formed(&self) -> bool {
        entries_ok(self.entries@)
    }

    /// An empty registry.
    pub fn new() -> (r: Self)
        ensures
            r@ == Map::<Seq<char>, RegisteredView<F, E>>::empty(),
    {
        let r = EngineRegistry { entries: Vec::new() };
        assert(r@ =~= Map::<Seq<char>, RegisteredView<F, E>>::empty());
        r
    }

    /// The position of the entry for `engine_id`, if there is one.
    fn find(&self, engine_id: &str) -> (r: Option<usize>)
        requires
            self.well_formed(),
        ensures
            match r {
                Some(i) => i < self.entries@.len() && self.entries@[i as int].engine_id@
                    == engine_id@ && self@.dom().contains(engine_id@) && self@[engine_id@]
                    == self.entries@[i as int].content(),
                None => !self@.dom().contains(engine_id@),
            },
    {
        let mut i: usize = 0;
        while i < self.entries.len()
            invariant
                self.well_formed(),
                i <= self.entries@.len(),
                forall|j: int| 0 <= j < i ==> (#[trigger] self.entries@[j]).engine_id@ != engine_id@,
            decreases self.entries@.len() - i,
        {
            if str_eq(self.entries[i].engine_id, engine_id) {
                proof {
                    lemma_entries_map_at(self.entries@, i as int);
                }
                return Some(i);
            }
            i = i + 1;
        }
        None
    }

    /// Adds an engine under `metadata.engine_id`, unless that id is registered already:
    /// then the registry is left as it was and the error names the id.
    pub fn register(&mut self, metadata: EngineMetadata, provider: EngineProvider<F, E>) -> (r: Result<
        (),
        RegistryError,
    >)
        requires
            provider matches EngineProvider::Factory(f) ==> call_requires(f, ()),
        ensures
            old(self)@.dom().contains(metadata.engine_id@) ==> (r matches Err(
                RegistryError::AlreadyRegistered(id),
            ) && id == metadata.engine_id && final(self)@ == old(self)@),
            !old(self)@.dom().contains(metadata.engine_id@) ==> r is Ok && final(self)@ == old(
                self,
            )@.insert(metadata.engine_id@, registered(metadata@, provider)),
    {
        proof {
            use_type_invariant(&*self);
        }
        let ghost s = self.entries@;
        let mut p: usize = 0;
        while p < self.entries.len()
            invariant
                self.entries@ == s,
                entries_ok(s),
                p <= s.len(),
                forall|j: int| 0 <= j < p ==> precedes(#[trigger] s[j].engine_id@, metadata.engine_id@),
            ensures
                p <= s.len(),
                forall|j: int| 0 <= j < p ==> precedes(#[trigger] s[j].engine_id@, metadata.engine_id@),
                p < s.len() ==> precedes(metadata.engine_id@, s[p as int].engine_id@),
            decreases s.len() - p,
        {
            if str_eq(self.entries[p].engine_id, metadata.engine_id) {
                proof {
                    lemma_entries_map_at(s, p as int);
                }
                return Err(RegistryError::AlreadyRegistered(metadata.engine_id));
            }
            if str_precedes(metadata.engine_id, self.entries[p].engine_id) {
                break;
            }
            proof {
                lemma_precedes_total(metadata.engine_id@, s[p as int].engine_id@);
            }
            p = p + 1;
        }
        proof {
            assert forall|j: int| p <= j < s.len() implies precedes(
                metadata.engine_id@,
                #[trigger] s[j].engine_id@,
            ) by {
                if j > p {
                    assert(precedes(s[p as int].engine_id@, s[j].engine_id@));
                    lemma_precedes_transitive(
                        metadata.engine_id@,
                        s[p as int].engine_id@,
                        s[j].engine_id@,
                    );
                }
            }
        }
        let entry = EngineEntry {
            engine_id: metadata.engine_id,
            display_name: metadata.display_name,
            capabilities: metadata.capabilities,
            provider,
        };
        proof {
            lemma_entries_map_insert(s, p as int, entry);
            assert(entry.content() == registered(metadata@, provider));
        }
        let mut entries: Vec<EngineEntry<F, E>> = Vec::new();
        std::mem::swap(&mut entries, &mut self.entries);
        entries.insert(p, entry);
        proof {
            assert(entries@ == s.insert(p as int, entry));
            assert forall|i: int| 0 <= i < entries@.len() implies match (
            #[trigger] entries@[i]).provider {
                EngineProvider::Factory(f) => call_requires(f, ()),
                EngineProvider::Instance(_) => true,
            } by {
                if i < p {
                    assert(entries@[i] == s[i]);
                } else if i > p {
                    assert(entries@[i] == s[i - 1]);
                }
            }
        }
        self.entries = entries;
        Ok(())
    }

    /// Registers one engine, handed out again (cloned) on every request. Its id, name
    /// and capabilities are read from it; the registration succeeds exactly when that
    /// id is not registered yet (see `registration_outcome`).
    pub fn register_instance(&mut self, engine: E) -> (r: Result<(), RegistryError>) where
        E: EngineInfo,
        ensures
            registration_outcome(
                old(self)@,
                final(self)@,
                r,
                info_of(engine),
                EngineProvider::Instance(engine),
            ),
    {
        let metadata = EngineMetadata {
            engine_id: engine.engine_id(),
            display_name: engine.display_name(),
            capabilities: engine.capabilities(),
        };
        assert(metadata@ == info_of(engine));
        self.register(metadata, EngineProvider::Instance(engine))
    }

    /// Registers a constructor, run on every request. It is run once now, and the
    /// engine it builds (`probe`) gives the id, name and capabilities; the registration
    /// succeeds exactly when that id is not registered yet (see `registration_outcome`).
    pub fn register_factory(&mut self, factory: F) -> (r: Result<(), RegistryError>) where
        E: EngineInfo,
        requires
            call_requires(factory, ()),
        ensures
            exists|probe: E|
                #[trigger] call_ensures(factory, (), probe) && registration_outcome(
                    old(self)@,
                    final(self)@,
                    r,
                    info_of(probe),
                    EngineProvider::Factory(factory),
                ),
    {
        let probe = factory();
        let metadata = EngineMetadata {
            engine_id: probe.engine_id(),
            display_name: probe.display_name(),
            capabilities: probe.capabilities(),
        };
        assert(metadata@ == info_of(probe));
        let r = self.register(metadata, EngineProvider::Factory(factory));
        assert(call_ensures(factory, (), probe));
        r
    }

    /// An engine for `engine_id`: a new one from its constructor, or a clone of the
    /// registered one; `None` when the id is not registered.
    pub fn create(&self, engine_id: &str) -> (r: Option<E>)
        ensures
            !self@.dom().contains(engine_id@) ==> r is None,
            self@.dom().contains(engine_id@) ==> (r matches Some(e) && match self@[engine_id@].provider {
                EngineProvider::Factory(f) => call_ensures(f, (), e),
                EngineProvider::Instance(x) => cloned(x, e),
            }),
    {
        proof {
            use_type_invariant(self);
        }
        match self.find(engine_id) {
            None => None,
            Some(i) => {
                let entry = &self.entries[i];
                match &entry.provider {
                    EngineProvider::Factory(f) => {
                        assert(call_requires(*f, ()));
                        Some(f())
                    },
                    EngineProvider::Instance(x) => Some(x.clone()),
                }
            },
        }
    }

    /// Whether `engine_id` is registered.
    pub fn contains(&self, engine_id: &str) -> (r: bool)
        ensures
            r == self@.dom().contains(engine_id@),
    {
        proof {
            use_type_invariant(self);
        }
        self.find(engine_id).is_some()
    }

    /// The display name registered for `engine_id`.
    pub fn display_name(&self, engine_id: &str) -> (r: Option<&'static str>)
        ensures
            r is Some == self@.dom().contains(engine_id@),
            r matches Some(n) ==> n@ == self@[engine_id@].display_name,
    {
        proof {
            use_type_invariant(self);
        }
        match self.find(engine_id) {
            None => None,
            Some(i) => Some(self.entries[i].display_name),
        }
    }

    /// The capabilities registered for `engine_id`.
    pub fn capabilities(&self, engine_id: &str) -> (r: Option<&EngineCapabilities>)
        ensures
            r is Some == self@.dom().contains(engine_id@),
            r matches Some(c) ==> c@ == self@[engine_id@].capabilities,
    {
        proof {
            use_type_invariant(self);
        }
        match self.find(engine_id) {
            None => None,
            Some(i) => Some(&self.entries[i].capabilities),
        }
    }

    /// The id, display name and capabilities registered for `engine_id`.
    pub fn metadata(&self, engine_id: &str) -> (r: Option<EngineMetadata>)
        ensures
            r is Some == self@.dom().contains(engine_id@),
            r matches Some(m) ==> m.engine_id@ == engine_id@ && m.display_name@
                == self@[engine_id@].display_name && m.capabilities@
                == self@[engine_id@].capabilities,
    {
        proof {
            use_type_invariant(self);
        }
        match self.find(engine_id) {
            None => None,
            Some(i) => {
                let entry = &self.entries[i];
                Some(
                    EngineMetadata {
                        engine_id: entry.engine_id,
                        display_name: entry.display_name,
                        capabilities: entry.capabilities.duplicate(),
                    },
                )
            },
        }
    }

    /// The registered engine ids, each once, in code-point order.
    pub fn engine_ids(&self) -> (r: Vec<&'static str>)
        ensures
            forall|k: Seq<char>|
                self@.dom().contains(k) <==> exists|i: int| 0 <= i < r@.len() && (#[trigger] r@[i])@ == k,
            forall|i: int, j: int| 0 <= i < j < r@.len() ==> precedes(#[trigger] r@[i]@, #[trigger] r@[j]@),
    {
        proof {
            use_type_invariant(self);
        }
        let mut r: Vec<&'static str> = Vec::new();
        let mut i: usize = 0;
        while i < self.entries.len()
            invariant
                i <= self.entries@.len(),
                r@.len() == i,
                forall|j: int| 0 <= j < i ==> r@[j] == (#[trigger] self.entries@[j]).engine_id,
            decreases self.entries@.len() - i,
        {
            r.push(self.entries[i].engine_id);
            i = i + 1;
        }
        proof {
            let s = self.entries@;
            assert forall|k: Seq<char>|
                self@.dom().contains(k) <==> exists|i: int| 0 <= i < r@.len() && (#[trigger] r@[i])@ == k by {
                if self@.dom().contains(k) {
                    let j = choose|j: int| 0 <= j < s.len() && (#[trigger] s[j]).engine_id@ == k;
                    assert(r@[j]@ == k);
                }
                if exists|i: int| 0 <= i < r@.len() && (#[trigger] r@[i])@ == k {
                    let j = choose|j: int| 0 <= j < r@.len() && (#[trigger] r@[j])@ == k;
                    assert(s[j].engine_id@ == k);
                    assert(holds_id(s, k));
                }
            }
            assert forall|i: int, j: int| 0 <= i < j < r@.len() implies precedes(
                #[trigger] r@[i]@,
                #[trigger] r@[j]@,
            ) by {
                assert(r@[i] == s[i].engine_id);
                assert(r@[j] == s[j].engine_id);
            }
        }
        r
    }
}

/// Registering two different engine ids gives the same registry in either order.
pub proof fn lemma_registration_order_irrelevant<F, E>(
    m: Map<Seq<char>, RegisteredView<F, E>>,
    a: Seq<char>,
    va: RegisteredView<F, E>,
    b: Seq<char>,
    vb: RegisteredView<F, E>,
)
    requires
        a != b,
    ensures
        m.insert(a, va).insert(b, vb) == m.insert(b, vb).insert(a, va),
{
    assert(m.insert(a, va).insert(b, vb) =~= m.insert(b, vb).insert(a, va));
}

} // verus!
