//! Import maps: a table of prefix rewrites applied before the other
//! resolution strategies.
//!
//! Entries are kept ordered by descending prefix length (in characters), with
//! insertion order kept among prefixes of equal length, so the first entry
//! whose prefix begins the specifier is the longest such entry.

use vstd::prelude::*;
use vstd::string::*;

use crate::json::{
    field, get_field, is_json, json_of, parse_json, string_entries, string_pair_views, string_pairs,
    JsonValue,
};
use crate::module_loader::{ModuleError, ModuleResult};
use crate::text::{concat2, owned, slice_chars, starts_with};

verus! {

/// Import map entry for resolving specifiers.
#[derive(Debug, Clone)]
pub struct ImportMapEntry {
    /// The prefix to match.
    pub prefix: String,
    /// The text that replaces the prefix.
    pub target: String,
}

/// An entry as a pair of character sequences `(prefix, target)`.
pub type EntryView = (Seq<char>, Seq<char>);

/// The views of a sequence of entries.
pub open spec fn entry_views(es: Seq<ImportMapEntry>) -> Seq<EntryView> {
    es.map_values(|e: ImportMapEntry| (e.prefix@, e.target@))
}

/// Entries ordered by non-increasing prefix length.
pub open spec fn sorted_by_prefix_len(es: Seq<EntryView>) -> bool {
    forall|i: int, j: int| 0 <= i < j < es.len() ==> #[trigger] es[j].0.len() <= #[trigger] es[i].0.len()
}

/// The views of a sequence of `(prefix, target)` string pairs.
pub open spec fn pair_views(ps: Seq<(String, String)>) -> Seq<EntryView> {
    ps.map_values(|p: (String, String)| (p.0@, p.1@))
}

/// The entries after inserting each of `pairs`, in order, into `es`.
pub open spec fn inserted_all(es: Seq<EntryView>, pairs: Seq<EntryView>) -> Seq<EntryView>
    decreases pairs.len(),
{
    if pairs.len() == 0 {
        es
    } else {
        let prev = inserted_all(es, pairs.drop_last());
        prev.insert(insertion_point(prev, pairs.last().0.len()), pairs.last())
    }
}

/// Where a new entry with a prefix of length `n` goes: before the first entry
/// whose prefix is shorter, or at the end.
pub open spec fn insertion_point(es: Seq<EntryView>, n: nat) -> int
    decreases es.len(),
{
    if es.len() == 0 {
        0
    } else if es[0].0.len() < n {
        0
    } else {
        1 + insertion_point(es.drop_first(), n)
    }
}

/// The index of the first entry whose prefix begins `s` (`es.len()` if none).
pub open spec fn first_match(es: Seq<EntryView>, s: Seq<char>) -> int
    decreases es.len(),
{
    if es.len() == 0 {
        0
    } else if es[0].0.is_prefix_of(s) {
        0
    } else {
        1 + first_match(es.drop_first(), s)
    }
}

/// The rewrite of `s` by the first matching entry: its target followed by the
/// rest of `s` after the prefix.
pub open spec fn rewrite(es: Seq<EntryView>, s: Seq<char>) -> Option<Seq<char>> {
    let i = first_match(es, s);
    if i < es.len() {
        Some(es[i].1 + s.skip(es[i].0.len() as int))
    } else {
        None
    }
}

proof fn lemma_first_match(es: Seq<EntryView>, s: Seq<char>)
    ensures
        0 <= first_match(es, s) <= es.len(),
        forall|k: int| 0 <= k < first_match(es, s) ==> !(#[trigger] es[k]).0.is_prefix_of(s),
        first_match(es, s) < es.len() ==> es[first_match(es, s)].0.is_prefix_of(s),
    decreases es.len(),
{
    if es.len() > 0 && !es[0].0.is_prefix_of(s) {
        lemma_first_match(es.drop_first(), s);
        assert forall|k: int| 0 <= k < first_match(es, s) implies !(#[trigger] es[k]).0.is_prefix_of(
            s,
        ) by {
            if k > 0 {
                assert(es[k] == es.drop_first()[k - 1]);
            }
        }
    }
}

proof fn lemma_insertion_point(es: Seq<EntryView>, n: nat)
    ensures
        0 <= insertion_point(es, n) <= es.len(),
        forall|k: int| 0 <= k < insertion_point(es, n) ==> (#[trigger] es[k]).0.len() >= n,
        insertion_point(es, n) < es.len() ==> es[insertion_point(es, n)].0.len() < n,
    decreases es.len(),
{
    if es.len() > 0 && es[0].0.len() >= n {
        lemma_insertion_point(es.drop_first(), n);
        assert forall|k: int| 0 <= k < insertion_point(es, n) implies (#[trigger] es[k]).0.len()
            >= n by {
            if k > 0 {
                assert(es[k] == es.drop_first()[k - 1]);
            }
        }
    }
}

/// In an import map ordered by descending prefix length, the entry that
/// rewrites a specifier has the longest prefix among all entries whose prefix
/// begins the specifier.
pub proof fn lemma_longest_prefix_wins(es: Seq<EntryView>, s: Seq<char>, j: int)
    requires
        sorted_by_prefix_len(es),
        0 <= j < es.len(),
        es[j].0.is_prefix_of(s),
    ensures
        first_match(es, s) < es.len(),
        first_match(es, s) <= j,
        es[j].0.len() <= es[first_match(es, s)].0.len(),
        rewrite(es, s) == Some(
            es[first_match(es, s)].1 + s.skip(es[first_match(es, s)].0.len() as int),
        ),
{
    lemma_first_match(es, s);
    let i = first_match(es, s);
    if j < i {
        assert(!es[j].0.is_prefix_of(s));
    }
    if i < j {
        assert(es[j].0.len() <= es[i].0.len());
    }
}

/// The string-valued entries of the `imports` object of a JSON value, in
/// the object's order; none when the value is not an object holding an
/// `imports` object.
pub open spec fn import_pairs_of(v: JsonValue) -> Seq<EntryView> {
    match v {
        JsonValue::Object(es) => match field(es@, "imports"@) {
            Some(JsonValue::Object(inner)) => string_pairs(inner@),
            _ => Seq::empty(),
        },
        _ => Seq::empty(),
    }
}

/// Collects the string-valued entries of a JSON value's `imports` object.
pub fn import_pairs(value: &JsonValue) -> (r: Vec<(String, String)>)
    ensures
        pair_views(r@) == import_pairs_of(*value),
{
    let none: Vec<(String, String)> = Vec::new();
    assert(pair_views(none@) =~= Seq::<EntryView>::empty());
    match value {
        JsonValue::Object(es) => match get_field(es, "imports") {
            Some(JsonValue::Object(inner)) => {
                let r = string_entries(inner);
                assert(pair_views(r@) =~= string_pair_views(r@));
                r
            },
            _ => none,
        },
        _ => none,
    }
}

/// Import map for module resolution.
#[derive(Debug, Clone)]
pub struct ImportMap {
    entries: Vec<ImportMapEntry>,
    base_url: String,
}

impl ImportMap {
    /// The entries, in matching order.
    pub closed spec fn entries(&self) -> Seq<EntryView> {
        entry_views(self.entries@)
    }

    /// The base URL the map was made with.
    pub closed spec fn base(&self) -> Seq<char> {
        self.base_url@
    }

    /// The map's entries are ordered by descending prefix length.
    pub open spec fn wf(&self) -> bool {
        sorted_by_prefix_len(self.entries())
    }

    /// Create a new, empty import map.
    pub fn new(base_url: String) -> (r: Self)
        ensures
            r.entries() == Seq::<EntryView>::empty(),
            r.base() == base_url@,
            r.wf(),
    {
        let r = ImportMap { entries: Vec::new(), base_url };
        assert(r.entries() =~= Seq::<EntryView>::empty());
        r
    }

    /// Add an entry, after every entry whose prefix is at least as long.
    pub fn insert(&mut self, prefix: String, target: String)
        ensures
            final(self).entries() == old(self).entries().insert(
                insertion_point(old(self).entries(), prefix@.len()),
                (prefix@, target@),
            ),
            final(self).base() == old(self).base(),
            old(self).wf() ==> final(self).wf(),
    {
        let n = prefix.as_str().unicode_len();
        let ghost es = self.entries();
        proof {
            lemma_insertion_point(es, n as nat);
        }
        let mut pos: usize = 0;
        while pos < self.entries.len() && self.entries[pos].prefix.as_str().unicode_len() >= n
            invariant
                pos <= self.entries.len(),
                es == self.entries(),
                n == prefix@.len(),
                0 <= insertion_point(es, n as nat) <= es.len(),
                forall|k: int| 0 <= k < insertion_point(es, n as nat) ==> (#[trigger] es[k]).0.len() >= n,
                insertion_point(es, n as nat) < es.len() ==> es[insertion_point(es, n as nat)].0.len() < n,
                pos <= insertion_point(es, n as nat),
            decreases self.entries.len() - pos,
        {
            assert(es[pos as int].0 == self.entries@[pos as int].prefix@);
            pos = pos + 1;
        }
        proof {
            if pos < es.len() {
                assert(es[pos as int].0 == self.entries@[pos as int].prefix@);
            }
        }
        let ghost new_entry = (prefix@, target@);
        self.entries.insert(pos, ImportMapEntry { prefix, target });
        assert(self.entries() =~= es.insert(pos as int, new_entry));
        proof {
            if sorted_by_prefix_len(es) {
                let ns = self.entries();
                assert forall|i: int, j: int| 0 <= i < j < ns.len() implies #[trigger] ns[j].0.len()
                    <= #[trigger] ns[i].0.len() by {
                    if j < pos {
                        assert(ns[i] == es[i] && ns[j] == es[j]);
                    } else if j == pos {
                        assert(ns[i] == es[i]);
                    } else if i < pos {
                        assert(ns[i] == es[i] && ns[j] == es[j - 1]);
                    } else if i == pos {
                        assert(ns[j] == es[j - 1]);
                    } else {
                        assert(ns[i] == es[i - 1] && ns[j] == es[j - 1]);
                    }
                }
            }
        }
    }

    /// Rewrite a specifier with the first entry whose prefix begins it.
    pub fn resolve(&self, specifier: &str) -> (r: Option<String>)
        ensures
            r matches Some(t) ==> rewrite(self.entries(), specifier@) == Some(t@),
            r is None ==> rewrite(self.entries(), specifier@) is None,
    {
        let ghost es = self.entries();
        proof {
            lemma_first_match(es, specifier@);
        }
        let mut i: usize = 0;
        while i < self.entries.len()
            invariant
                i <= self.entries.len(),
                es == self.entries(),
                0 <= first_match(es, specifier@) <= es.len(),
                forall|k: int| 0 <= k < first_match(es, specifier@) ==> !(#[trigger] es[k]).0.is_prefix_of(specifier@),
                first_match(es, specifier@) < es.len() ==> es[first_match(es, specifier@)].0.is_prefix_of(specifier@),
                i <= first_match(es, specifier@),
            decreases self.entries.len() - i,
        {
            let entry = &self.entries[i];
            assert(es[i as int] == (entry.prefix@, entry.target@));
            if starts_with(specifier, entry.prefix.as_str()) {
                let plen = entry.prefix.as_str().unicode_len();
                let rest = slice_chars(specifier, plen, specifier.unicode_len());
                let r = concat2(entry.target.as_str(), rest.as_str());
                assert(specifier@.skip(plen as int) =~= specifier@.subrange(plen as int, specifier@.len() as int));
                return Some(r);
            }
            i = i + 1;
        }
        None
    }

    /// Build a map by inserting `pairs` in order.
    pub fn from_entries(pairs: &Vec<(String, String)>, base_url: String) -> (r: Self)
        ensures
            r.entries() == inserted_all(Seq::empty(), pair_views(pairs@)),
            r.base() == base_url@,
            r.wf(),
    {
        let mut map = ImportMap::new(base_url);
        let mut k: usize = 0;
        while k < pairs.len()
            invariant
                k <= pairs.len(),
                map.entries() == inserted_all(Seq::empty(), pair_views(pairs@).take(k as int)),
                map.base() == base_url@,
                map.wf(),
            decreases pairs.len() - k,
        {
            let ghost taken = pair_views(pairs@).take(k + 1);
            assert(taken.drop_last() =~= pair_views(pairs@).take(k as int));
            let prefix = pairs[k].0.clone();
            let target = pairs[k].1.clone();
            map.insert(prefix, target);
            k = k + 1;
        }
        assert(pair_views(pairs@).take(pairs.len() as int) =~= pair_views(pairs@));
        map
    }

    /// Parse an import map from JSON. The only recognized key is `imports`,
    /// an object from prefix to target, whose string-valued entries are
    /// inserted in order; other shapes and non-string targets are ignored.
    /// Text that is not JSON is a parse error.
    pub fn from_json(json: &str, base_url: String) -> (r: ModuleResult<Self>)
        ensures
            r is Err <==> !is_json(json@),
            r matches Err(e) ==> e is ParseError,
            r matches Ok(m) ==> {
                &&& m.wf()
                &&& m.base() == base_url@
                &&& m.entries() == inserted_all(Seq::empty(), import_pairs_of(json_of(json@)))
            },
    {
        let value = match parse_json(json) {
            Ok(v) => v,
            Err(detail) => {
                return Err(
                    ModuleError::ParseError(
                        concat2("Invalid import map JSON: ", detail.as_str()),
                    ),
                );
            },
        };
        let pairs = import_pairs(&value);
        Ok(Self::from_entries(&pairs, base_url))
    }
}

} // verus!
