//! The module cache: canonical specifier to resolved module.
//!
//! Entries are created on the first successful load and persist until the
//! cache is cleared; a failed load never adds one.
//!
//! The cache is keyed by `String`, for which vstd's `HashMap` specification
//! gives no usable key model, so the entries are held as a vector of pairs
//! whose keys are kept unique, and stated as a `Map`.

use vstd::prelude::*;
use vstd::string::*;

use crate::module_loader::{ModuleView, ResolvedModule};
use crate::text::equals;

verus! {

/// The map held by a sequence of entries, later entries overriding earlier ones.
pub open spec fn entries_map(es: Seq<(String, ResolvedModule)>) -> Map<Seq<char>, ModuleView>
    decreases es.len(),
{
    if es.len() == 0 {
        Map::empty()
    } else {
        entries_map(es.drop_last()).insert(es.last().0@, es.last().1@)
    }
}

/// No two entries share a specifier.
pub open spec fn keys_unique(es: Seq<(String, ResolvedModule)>) -> bool {
    forall|i: int, j: int|
        0 <= i < j < es.len() ==> (#[trigger] es[i]).0@ != (#[trigger] es[j]).0@
}

proof fn lemma_entries_map_lookup(es: Seq<(String, ResolvedModule)>, k: Seq<char>)
    requires
        keys_unique(es),
    ensures
        entries_map(es).contains_key(k) <==> exists|i: int| 0 <= i < es.len() && (#[trigger] es[i]).0@ == k,
        forall|i: int|
            0 <= i < es.len() && (#[trigger] es[i]).0@ == k ==> entries_map(es)[k] == es[i].1@,
    decreases es.len(),
{
    if es.len() > 0 {
        let prev = es.drop_last();
        assert(keys_unique(prev)) by {
            assert forall|i: int, j: int| 0 <= i < j < prev.len() implies (#[trigger] prev[i]).0@
                != (#[trigger] prev[j]).0@ by {
                assert(prev[i] == es[i] && prev[j] == es[j]);
            }
        }
        lemma_entries_map_lookup(prev, k);
        if entries_map(es).contains_key(k) {
            if es.last().0@ == k {
                assert(es[es.len() - 1].0@ == k);
            } else {
                let i = choose|i: int| 0 <= i < prev.len() && (#[trigger] prev[i]).0@ == k;
                assert(es[i] == prev[i]);
            }
        }
        assert forall|i: int| 0 <= i < es.len() && (#[trigger] es[i]).0@ == k implies entries_map(
            es,
        )[k] == es[i].1@ by {
            if i < es.len() - 1 {
                assert(es[i] == prev[i]);
                assert(es[i].0@ != es[es.len() - 1].0@);
            }
        }
        assert forall|i: int| 0 <= i < es.len() && (#[trigger] es[i]).0@ == k implies entries_map(
            es,
        ).contains_key(k) by {
            if i < es.len() - 1 {
                assert(prev[i] == es[i]);
            }
        }
        assert forall|i: int| 0 <= i < prev.len() && (#[trigger] prev[i]).0@ == k implies exists|
            j: int,
        | 0 <= j < es.len() && (#[trigger] es[j]).0@ == k by {
            assert(es[i] == prev[i]);
        }
    }
}

proof fn lemma_entries_map_update(
    es: Seq<(String, ResolvedModule)>,
    i: int,
    e: (String, ResolvedModule),
)
    requires
        keys_unique(es),
        0 <= i < es.len(),
        es[i].0@ == e.0@,
    ensures
        keys_unique(es.update(i, e)),
        entries_map(es.update(i, e)) == entries_map(es).insert(e.0@, e.1@),
    decreases es.len(),
{
    let ns = es.update(i, e);
    assert(keys_unique(ns)) by {
        assert forall|a: int, b: int| 0 <= a < b < ns.len() implies (#[trigger] ns[a]).0@
            != (#[trigger] ns[b]).0@ by {
            assert(ns[a].0@ == es[a].0@);
            assert(ns[b].0@ == es[b].0@);
        }
    }
    let prev = es.drop_last();
    assert(keys_unique(prev)) by {
        assert forall|a: int, b: int| 0 <= a < b < prev.len() implies (#[trigger] prev[a]).0@
            != (#[trigger] prev[b]).0@ by {
            assert(prev[a] == es[a] && prev[b] == es[b]);
        }
    }
    if i == es.len() - 1 {
        assert(ns.drop_last() =~= prev);
        lemma_entries_map_lookup(prev, e.0@);
        assert(!entries_map(prev).contains_key(e.0@)) by {
            if entries_map(prev).contains_key(e.0@) {
                let j = choose|j: int| 0 <= j < prev.len() && (#[trigger] prev[j]).0@ == e.0@;
                assert(es[j] == prev[j]);
            }
        }
        assert(entries_map(ns) =~= entries_map(es).insert(e.0@, e.1@));
    } else {
        lemma_entries_map_update(prev, i, e);
        assert(ns.drop_last() =~= prev.update(i, e));
        assert(ns.last() == es.last());
        assert(es.last().0@ != e.0@) by {
            assert(es[es.len() - 1].0@ != es[i].0@);
        }
        assert(entries_map(ns) =~= entries_map(es).insert(e.0@, e.1@));
    }
}

/// Cache of loaded modules, keyed by canonical specifier.
#[derive(Debug, Clone)]
pub struct ModuleCache {
    entries: Vec<(String, ResolvedModule)>,
}

impl View for ModuleCache {
    type V = Map<Seq<char>, ModuleView>;

    closed spec fn view(&self) -> Map<Seq<char>, ModuleView> {
        entries_map(self.entries@)
    }
}

impl ModuleCache {
    /// The cache's internal invariant.
    pub closed spec fn wf(&self) -> bool {
        keys_unique(self.entries@)
    }

    /// Create a new, empty cache.
    pub fn new() -> (r: Self)
        ensures
            r@ == Map::<Seq<char>, ModuleView>::empty(),
            r.wf(),
    {
        ModuleCache { entries: Vec::new() }
    }

    fn find(&self, specifier: &str) -> (r: Option<usize>)
        requires
            self.wf(),
        ensures
            match r {
                Some(i) => i < self.entries@.len() && self.entries@[i as int].0@ == specifier@,
                None => forall|i: int|
                    0 <= i < self.entries@.len() ==> (#[trigger] self.entries@[i]).0@ != specifier@,
            },
    {
        let mut i: usize = 0;
        while i < self.entries.len()
            invariant
                i <= self.entries@.len(),
                forall|k: int| 0 <= k < i ==> (#[trigger] self.entries@[k]).0@ != specifier@,
            decreases self.entries.len() - i,
        {
            if equals(self.entries[i].0.as_str(), specifier) {
                return Some(i);
            }
            i = i + 1;
        }
        None
    }

    /// Get a copy of the module cached under `specifier`.
    pub fn get(&self, specifier: &str) -> (r: Option<ResolvedModule>)
        requires
            self.wf(),
        ensures
            match r {
                Some(m) => self@.contains_key(specifier@) && m@ == self@[specifier@],
                None => !self@.contains_key(specifier@),
            },
    {
        proof {
            lemma_entries_map_lookup(self.entries@, specifier@);
        }
        match self.find(specifier) {
            Some(i) => Some(self.entries[i].1.copy()),
            None => None,
        }
    }

    /// Insert a module under `specifier`, replacing any earlier one.
    pub fn insert(&mut self, specifier: String, module: ResolvedModule)
        requires
            old(self).wf(),
        ensures
            final(self).wf(),
            final(self)@ == old(self)@.insert(specifier@, module@),
    {
        match self.find(specifier.as_str()) {
            Some(i) => {
                let ghost es = self.entries@;
                let ghost e = (specifier, module);
                proof {
                    lemma_entries_map_update(es, i as int, e);
                }
                self.entries.set(i, (specifier, module));
                assert(self.entries@ == es.update(i as int, e));
            },
            None => {
                let ghost es = self.entries@;
                self.entries.push((specifier, module));
                assert(self.entries@.drop_last() =~= es);
                assert(keys_unique(self.entries@)) by {
                    assert forall|a: int, b: int| 0 <= a < b < self.entries@.len() implies (
                    #[trigger] self.entries@[a]).0@ != (#[trigger] self.entries@[b]).0@ by {
                        if b < es.len() {
                            assert(self.entries@[a] == es[a] && self.entries@[b] == es[b]);
                        } else {
                            assert(self.entries@[a] == es[a]);
                        }
                    }
                }
            },
        }
    }

    /// Check if a module is cached under `specifier`.
    pub fn contains(&self, specifier: &str) -> (r: bool)
        requires
            self.wf(),
        ensures
            r == self@.contains_key(specifier@),
    {
        proof {
            lemma_entries_map_lookup(self.entries@, specifier@);
        }
        self.find(specifier).is_some()
    }

    /// Remove every entry.
    pub fn clear(&mut self)
        ensures
            final(self).wf(),
            final(self)@ == Map::<Seq<char>, ModuleView>::empty(),
    {
        self.entries = Vec::new();
    }
}

/// Caching a module under a specifier makes the cache hold exactly that
/// module under it, and clearing leaves no specifier cached.
pub proof fn lemma_insert_then_lookup(
    cache: Map<Seq<char>, ModuleView>,
    specifier: Seq<char>,
    module: ModuleView,
)
    ensures
        cache.insert(specifier, module).contains_key(specifier),
        cache.insert(specifier, module)[specifier] == module,
        !Map::<Seq<char>, ModuleView>::empty().contains_key(specifier),
{
}

} // verus!
