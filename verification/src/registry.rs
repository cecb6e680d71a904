//! Run-scoped registry caches: mappings from a natural key (a symbol,
//! author, source or topic name) to the store-assigned surrogate id.
//!
//! The cache guarantees at most one store insert per distinct natural
//! key per run: a hit never reaches the store, and a miss records the
//! freshly created id so every later lookup of the same key hits.

use vstd::prelude::*;

verus! {

/// The map denoted by a sequence of key/id entries, later entries
/// overriding earlier ones.
pub open spec fn spec_map_of(entries: Seq<(String, i64)>) -> Map<Seq<char>, i64>
    decreases entries.len(),
{
    if entries.len() == 0 {
        Map::empty()
    } else {
        spec_map_of(entries.drop_last()).insert(entries.last().0@, entries.last().1)
    }
}

/// No two entries share a key.
pub open spec fn spec_keys_distinct(entries: Seq<(String, i64)>) -> bool {
    forall|i: int, j: int|
        0 <= i < j < entries.len() ==> (#[trigger] entries[i]).0@ != (#[trigger] entries[j]).0@
}

/// A key is in the denoted map exactly when some entry carries it.
proof fn lemma_map_of_contains(entries: Seq<(String, i64)>, k: Seq<char>)
    ensures
        spec_map_of(entries).contains_key(k) <==> exists|i: int|
            0 <= i < entries.len() && (#[trigger] entries[i]).0@ == k,
    decreases entries.len(),
{
    if entries.len() > 0 {
        lemma_map_of_contains(entries.drop_last(), k);
        if entries.last().0@ == k {
            assert((entries[entries.len() - 1]).0@ == k);
        } else {
            if spec_map_of(entries).contains_key(k) {
                let i = choose|i: int|
                    0 <= i < entries.drop_last().len() && (#[trigger] entries.drop_last()[i]).0@
                        == k;
                assert((entries[i]).0@ == k);
            }
            if exists|i: int| 0 <= i < entries.len() && (#[trigger] entries[i]).0@ == k {
                let i = choose|i: int| 0 <= i < entries.len() && (#[trigger] entries[i]).0@ == k;
                assert(i < entries.len() - 1);
                assert((entries.drop_last()[i]).0@ == k);
            }
        }
    }
}

/// With distinct keys, each entry's id is what the denoted map returns
/// for that entry's key.
proof fn lemma_map_of_get(entries: Seq<(String, i64)>, i: int)
    requires
        spec_keys_distinct(entries),
        0 <= i < entries.len(),
    ensures
        spec_map_of(entries).contains_key(entries[i].0@),
        spec_map_of(entries)[entries[i].0@] == entries[i].1,
    decreases entries.len(),
{
    if i == entries.len() - 1 {
    } else {
        assert(spec_keys_distinct(entries.drop_last())) by {
            assert(forall|a: int, b: int|
                0 <= a < b < entries.drop_last().len() ==> (#[trigger] entries.drop_last()[a]).0@
                    == entries[a].0@ && (#[trigger] entries.drop_last()[b]).0@ == entries[b].0@);
        }
        assert(entries.drop_last()[i] == entries[i]);
        lemma_map_of_get(entries.drop_last(), i);
        assert(entries[i].0@ != entries.last().0@);
    }
}

/// With distinct keys, the denoted map has exactly one key per entry.
proof fn lemma_map_of_card(entries: Seq<(String, i64)>)
    requires
        spec_keys_distinct(entries),
    ensures
        spec_map_of(entries).dom().finite(),
        spec_map_of(entries).dom().len() == entries.len(),
    decreases entries.len(),
{
    if entries.len() > 0 {
        let prefix = entries.drop_last();
        assert(spec_keys_distinct(prefix)) by {
            assert(forall|a: int, b: int|
                0 <= a < b < prefix.len() ==> (#[trigger] prefix[a]).0@ == entries[a].0@ && (
                #[trigger] prefix[b]).0@ == entries[b].0@);
        }
        lemma_map_of_card(prefix);
        lemma_map_of_contains(prefix, entries.last().0@);
        assert(forall|i: int|
            0 <= i < prefix.len() ==> (#[trigger] prefix[i]).0@ == entries[i].0@);
        assert(!spec_map_of(prefix).contains_key(entries.last().0@));
    }
}

/// Replacing the one entry that carries a key denotes the same map as
/// inserting that key into the original.
proof fn lemma_set_entries_ok(
    es0: Seq<(String, i64)>,
    es2: Seq<(String, i64)>,
    i: int,
    pair: (String, i64),
)
    requires
        spec_keys_distinct(es0),
        0 <= i < es0.len(),
        es0[i].0@ == pair.0@,
        es2 == es0.remove(i).push(pair),
    ensures
        spec_keys_distinct(es2),
        spec_map_of(es2) == spec_map_of(es0).insert(pair.0@, pair.1),
{
    let k = pair.0@;
    let es1 = es0.remove(i);
    assert(forall|j: int| 0 <= j < i ==> es1[j] == es0[j]);
    assert(forall|j: int| i <= j < es1.len() ==> es1[j] == es0[j + 1]);
    assert forall|j: int| 0 <= j < es1.len() implies (#[trigger] es1[j]).0@ != k by {
        if j < i {
            assert(es0[j].0@ != es0[i].0@);
        } else {
            assert(es0[j + 1].0@ != es0[i].0@);
        }
    }
    assert(spec_keys_distinct(es2)) by {
        assert forall|a: int, b: int| 0 <= a < b < es2.len() implies (#[trigger] es2[a]).0@ != (
        #[trigger] es2[b]).0@ by {
            if b == es2.len() - 1 {
                assert(es2[a] == es1[a]);
                assert(es2[b] == pair);
            } else {
                let a0 = if a < i {
                    a
                } else {
                    a + 1
                };
                let b0 = if b < i {
                    b
                } else {
                    b + 1
                };
                assert(es2[a] == es0[a0] && es2[b] == es0[b0]);
            }
        }
    }
    let m2 = spec_map_of(es2);
    let m0 = spec_map_of(es0);
    assert forall|q: Seq<char>| true implies (m2.contains_key(q) <==> m0.insert(
        k,
        pair.1,
    ).contains_key(q)) by {
        lemma_map_of_contains(es2, q);
        lemma_map_of_contains(es0, q);
        if q == k {
            assert((es2[es2.len() - 1]).0@ == q);
        } else {
            if m2.contains_key(q) {
                let j = choose|j: int| 0 <= j < es2.len() && (#[trigger] es2[j]).0@ == q;
                let j0 = if j < i {
                    j
                } else {
                    j + 1
                };
                assert((es0[j0]).0@ == q);
            }
            if m0.insert(k, pair.1).contains_key(q) {
                let j = choose|j: int| 0 <= j < es0.len() && (#[trigger] es0[j]).0@ == q;
                let j2 = if j < i {
                    j
                } else {
                    j - 1
                };
                assert((es2[j2]).0@ == q);
            }
        }
    }
    assert forall|q: Seq<char>| m2.contains_key(q) implies m2[q] == m0.insert(k, pair.1)[q] by {
        if q == k {
            lemma_map_of_get(es2, es2.len() - 1);
        } else {
            lemma_map_of_contains(es2, q);
            let j = choose|j: int| 0 <= j < es2.len() && (#[trigger] es2[j]).0@ == q;
            let j0 = if j < i {
                j
            } else {
                j + 1
            };
            assert(es2[j] == es0[j0]);
            lemma_map_of_get(es2, j);
            lemma_map_of_get(es0, j0);
        }
    }
    assert(m2 =~= m0.insert(k, pair.1));
}

/// A run-scoped map from natural keys to surrogate ids.
pub struct IdMap {
    entries: Vec<(String, i64)>,
}

impl View for IdMap {
    type V = Map<Seq<char>, i64>;

    closed spec fn view(&self) -> Map<Seq<char>, i64> {
        spec_map_of(self.entries@)
    }
}

impl IdMap {
    #[verifier::type_invariant]
    spec fn wf(&self) -> bool {
        spec_keys_distinct(self.entries@)
    }

    /// An empty cache.
    pub fn new() -> (r: Self)
        ensures
            r@ == Map::<Seq<char>, i64>::empty(),
    {
        Self { entries: Vec::new() }
    }

    /// How many distinct keys the cache holds.
    pub fn len(&self) -> (r: usize)
        ensures
            r == self@.dom().len(),
            self@.dom().finite(),
    {
        proof {
            use_type_invariant(&*self);
            lemma_map_of_card(self.entries@);
        }
        self.entries.len()
    }

    /// Is the cache empty?
    pub fn is_empty(&self) -> (r: bool)
        ensures
            r == (self@.dom() =~= Set::<Seq<char>>::empty()),
    {
        proof {
            use_type_invariant(&*self);
            lemma_map_of_card(self.entries@);
            if self.entries@.len() > 0 {
                lemma_map_of_get(self.entries@, 0);
            }
        }
        self.entries.len() == 0
    }

    /// The id cached for a key, if any.
    pub fn get(&self, key: &str) -> (r: Option<i64>)
        ensures
            r == (if self@.contains_key(key@) {
                Some(self@[key@])
            } else {
                None::<i64>
            }),
    {
        proof {
            use_type_invariant(&*self);
            lemma_map_of_contains(self.entries@, key@);
        }
        let n = self.entries.len();
        let mut i: usize = 0;
        while i < n
            invariant
                0 <= i <= n,
                n == self.entries@.len(),
                spec_keys_distinct(self.entries@),
                forall|j: int| 0 <= j < i ==> (#[trigger] self.entries@[j]).0@ != key@,
            decreases n - i,
        {
            if crate::text::str_eq(self.entries[i].0.as_str(), key) {
                proof {
                    lemma_map_of_get(self.entries@, i as int);
                }
                return Some(self.entries[i].1);
            }
            i += 1;
        }
        proof {
            lemma_map_of_contains(self.entries@, key@);
        }
        None
    }

    /// Record an id for a key not seen before in this run; an already
    /// cached key is left untouched. Returns whether the key was fresh.
    pub fn insert_if_absent(&mut self, key: &str, id: i64) -> (fresh: bool)
        ensures
            fresh == !old(self)@.contains_key(key@),
            fresh ==> final(self)@ == old(self)@.insert(key@, id),
            !fresh ==> final(self)@ == old(self)@,
    {
        proof {
            use_type_invariant(&*self);
        }
        match self.get(key) {
            Some(_) => false,
            None => {
                proof {
                    lemma_map_of_contains(self.entries@, key@);
                    assert(forall|i: int|
                        0 <= i < self.entries@.len() ==> (#[trigger] self.entries@[i]).0@ != key@);
                }
                let pair = (key.to_owned(), id);
                proof {
                    assert(pair.0@ == key@);
                    assert(self.entries@.push(pair).drop_last() =~= self.entries@);
                }
                let mut entries: Vec<(String, i64)> = Vec::new();
                core::mem::swap(&mut entries, &mut self.entries);
                entries.push(pair);
                self.entries = entries;
                true
            },
        }
    }

    /// Record an id for a key, replacing whatever id the key held.
    pub fn set(&mut self, key: &str, id: i64)
        ensures
            final(self)@ == old(self)@.insert(key@, id),
    {
        proof {
            use_type_invariant(&*self);
        }
        let n = self.entries.len();
        let mut i: usize = 0;
        while i < n
            invariant
                0 <= i <= n,
                n == self.entries@.len(),
                spec_keys_distinct(self.entries@),
                self.entries@ == old(self).entries@,
                forall|j: int| 0 <= j < i ==> (#[trigger] self.entries@[j]).0@ != key@,
            decreases n - i,
        {
            if crate::text::str_eq(self.entries[i].0.as_str(), key) {
                let ghost es0 = self.entries@;
                let mut entries: Vec<(String, i64)> = Vec::new();
                core::mem::swap(&mut entries, &mut self.entries);
                let _replaced = entries.remove(i);
                let pair = (key.to_owned(), id);
                proof {
                    assert(pair.0@ == key@);
                }
                entries.push(pair);
                proof {
                    let es2 = entries@;
                    lemma_set_entries_ok(es0, es2, i as int, pair);
                }
                self.entries = entries;
                return;
            }
            i += 1;
        }
        proof {
            lemma_map_of_contains(self.entries@, key@);
        }
        let pair = (key.to_owned(), id);
        proof {
            assert(pair.0@ == key@);
            assert(self.entries@.push(pair).drop_last() =~= self.entries@);
        }
        let mut entries: Vec<(String, i64)> = Vec::new();
        core::mem::swap(&mut entries, &mut self.entries);
        entries.push(pair);
        self.entries = entries;
    }

    /// The cache denoted by a list of key/id pairs, later pairs
    /// overriding earlier ones.
    pub fn from_pairs(pairs: &Vec<(String, i64)>) -> (r: Self)
        ensures
            r@ == spec_map_of(pairs@),
    {
        let mut r = Self::new();
        let n = pairs.len();
        let mut i: usize = 0;
        while i < n
            invariant
                0 <= i <= n,
                n == pairs@.len(),
                r@ == spec_map_of(pairs@.take(i as int)),
            decreases n - i,
        {
            r.set(pairs[i].0.as_str(), pairs[i].1);
            proof {
                assert(pairs@.take(i + 1).drop_last() =~= pairs@.take(i as int));
                assert(pairs@.take(i + 1).last() == pairs@[i as int]);
            }
            i += 1;
        }
        proof {
            assert(pairs@.take(n as int) =~= pairs@);
        }
        r
    }

    /// Duplicate suppression: returns `true` (proceed) and records the
    /// key when it is new to this run, `false` (skip) when it was
    /// already registered.
    pub fn mark_seen_or_skip(&mut self, key: &str) -> (fresh: bool)
        ensures
            fresh == !old(self)@.contains_key(key@),
            fresh ==> final(self)@ == old(self)@.insert(key@, 1),
            !fresh ==> final(self)@ == old(self)@,
    {
        self.insert_if_absent(key, 1)
    }

    /// Look a key up; on a miss, call `create` (the store insert) once
    /// and cache what it returned. The second component reports whether
    /// `create` was invoked.
    pub fn get_or_create<F: Fn() -> i64>(&mut self, key: &str, create: F) -> (r: (i64, bool))
        requires
            call_requires(create, ()),
        ensures
            (final(self)@, r.0) == spec_get_or_create(old(self)@, key@, r.0),
            r.1 == !old(self)@.contains_key(key@),
            !r.1 ==> old(self)@.contains_key(key@) && final(self)@ == old(self)@ && r.0 == old(
                self,
            )@[key@],
            r.1 ==> !old(self)@.contains_key(key@) && call_ensures(create, (), r.0)
                && final(self)@ == old(self)@.insert(key@, r.0),
    {
        match self.get(key) {
            Some(id) => (id, false),
            None => {
                let id = create();
                let fresh = self.insert_if_absent(key, id);
                proof {
                    assert(fresh);
                }
                (id, true)
            },
        }
    }
}

/// The cache and id one `get_or_create` yields, at the map level: a
/// hit changes nothing and returns the cached id; a miss caches and
/// returns the freshly created one.
pub open spec fn spec_get_or_create(m: Map<Seq<char>, i64>, key: Seq<char>, fresh_id: i64) -> (
    Map<Seq<char>, i64>,
    i64,
) {
    if m.contains_key(key) {
        (m, m[key])
    } else {
        (m.insert(key, fresh_id), fresh_id)
    }
}

/// Registry at-most-once law: however many times a run asks for one
/// key, only the first call can create. Against a cache without the
/// key, the first call stores and returns the created id, and any
/// later call — whatever its creator would return — leaves the cache
/// untouched and returns that same id; repeating the later call
/// changes nothing further.
pub proof fn lemma_registry_at_most_once(
    m0: Map<Seq<char>, i64>,
    key: Seq<char>,
    id1: i64,
    id2: i64,
)
    requires
        !m0.contains_key(key),
    ensures
        ({
            let first = spec_get_or_create(m0, key, id1);
            let second = spec_get_or_create(first.0, key, id2);
            first.1 == id1 && second.0 == first.0 && second.1 == id1
        }),
{
}

} // verus!
