use vstd::prelude::*;

verus! {

/// The map that a list of string-keyed entries stands for: a later entry
/// for a key takes the place of an earlier one.
pub open spec fn entries_map<V>(s: Seq<(String, V)>) -> Map<Seq<char>, V>
    decreases s.len(),
{
    if s.len() == 0 {
        Map::empty()
    } else {
        entries_map(s.drop_last()).insert(s.last().0@, s.last().1)
    }
}

/// No two entries share a key.
pub open spec fn keys_unique<V>(s: Seq<(String, V)>) -> bool {
    forall|i: int, j: int|
        0 <= i < s.len() && 0 <= j < s.len() && i != j ==> #[trigger] s[i].0@ != #[trigger] s[j].0@
}

/// `keys` lists each key of `dom` once, and nothing else.
pub open spec fn lists_keys(keys: Seq<Seq<char>>, dom: Set<Seq<char>>) -> bool {
    &&& keys.no_duplicates()
    &&& forall|k: Seq<char>| #[trigger] dom.contains(k) <==> keys.contains(k)
}

/// With unique keys, a key is in the map exactly when some entry has it,
/// and the map gives each entry's own value.
proof fn lemma_entries_map<V>(s: Seq<(String, V)>)
    requires
        keys_unique(s),
    ensures
        forall|k: Seq<char>|
            #![trigger entries_map(s).dom().contains(k)]
            entries_map(s).dom().contains(k) <==> exists|i: int| 0 <= i < s.len() && s[i].0@ == k,
        forall|i: int| 0 <= i < s.len() ==> entries_map(s)[#[trigger] s[i].0@] == s[i].1,
        entries_map(s).dom().finite(),
        entries_map(s).dom().len() == s.len(),
    decreases s.len(),
{
    if s.len() > 0 {
        let t = s.drop_last();
        assert(keys_unique(t));
        lemma_entries_map(t);
        let k0 = s.last().0@;
        assert(!entries_map(t).dom().contains(k0)) by {
            if entries_map(t).dom().contains(k0) {
                let i = choose|i: int| 0 <= i < t.len() && t[i].0@ == k0;
                assert(s[i].0@ == s[s.len() - 1].0@);
            }
        }
        assert forall|k: Seq<char>|
            #![trigger entries_map(s).dom().contains(k)]
            entries_map(s).dom().contains(k) <==> exists|i: int|
                0 <= i < s.len() && s[i].0@ == k by {
            if entries_map(s).dom().contains(k) && k != k0 {
                let i = choose|i: int| 0 <= i < t.len() && t[i].0@ == k;
                assert(s[i].0@ == k);
            }
            if exists|i: int| 0 <= i < s.len() && s[i].0@ == k {
                let i = choose|i: int| 0 <= i < s.len() && s[i].0@ == k;
                if i < s.len() - 1 {
                    assert(t[i].0@ == k);
                }
            }
        }
        assert forall|i: int| 0 <= i < s.len() implies entries_map(s)[#[trigger] s[i].0@]
            == s[i].1 by {
            if i < s.len() - 1 {
                assert(t[i] == s[i]);
                assert(s[i].0@ != k0);
            }
        }
    }
}

/// A map keyed by strings, kept as a list of entries with unique keys.
pub struct StrMap<V> {
    entries: Vec<(String, V)>,
}

impl<V> StrMap<V> {
    /// The entries, in the order in which their keys were first inserted.
    pub closed spec fn entries(&self) -> Seq<(String, V)> {
        self.entries@
    }

    /// Well-formedness: no key occurs twice.
    pub open spec fn wf(&self) -> bool {
        keys_unique(self.entries())
    }

    /// What the map holds.
    pub open spec fn map(&self) -> Map<Seq<char>, V> {
        entries_map(self.entries())
    }

    /// An empty map.
    pub fn new() -> (r: StrMap<V>)
        ensures
            r.wf(),
            r.map() == Map::<Seq<char>, V>::empty(),
            r.entries().len() == 0,
    {
        StrMap { entries: Vec::new() }
    }

    /// The number of entries.
    pub fn len(&self) -> (n: usize)
        requires
            self.wf(),
        ensures
            n == self.map().dom().len(),
            n == self.entries().len(),
    {
        proof {
            lemma_entries_map(self.entries@);
        }
        self.entries.len()
    }

    /// The position of the entry with the given key, if any.
    fn find(&self, key: &String) -> (r: Option<usize>)
        requires
            self.wf(),
        ensures
            match r {
                Some(i) => i < self.entries().len() && self.entries()[i as int].0@ == key@,
                None => !self.map().dom().contains(key@),
            },
    {
        proof {
            lemma_entries_map(self.entries@);
        }
        let mut i: usize = 0;
        while i < self.entries.len()
            invariant
                i <= self.entries@.len(),
                forall|j: int| 0 <= j < i ==> self.entries@[j].0@ != key@,
            decreases self.entries@.len() - i,
        {
            if self.entries[i].0 == *key {
                return Some(i);
            }
            i = i + 1;
        }
        None
    }

    /// Whether the key is in the map.
    pub fn contains_key(&self, key: &String) -> (b: bool)
        requires
            self.wf(),
        ensures
            b == self.map().dom().contains(key@),
    {
        proof {
            lemma_entries_map(self.entries@);
        }
        match self.find(key) {
            Some(_) => true,
            None => false,
        }
    }

    /// Inserts or replaces the value for a key. A replaced key keeps its
    /// place among the entries.
    pub fn insert(&mut self, key: String, value: V)
        requires
            old(self).wf(),
        ensures
            final(self).wf(),
            final(self).map() == old(self).map().insert(key@, value),
            old(self).map().dom().contains(key@) ==> exists|i: int|
                0 <= i < old(self).entries().len() && old(self).entries()[i].0@ == key@
                    && final(self).entries() == old(self).entries().update(i, (key, value)),
            !old(self).map().dom().contains(key@) ==> final(self).entries() == old(
                self,
            ).entries().push((key, value)),
    {
        proof {
            lemma_entries_map(self.entries@);
        }
        let ghost s0 = self.entries@;
        match self.find(&key) {
            Some(i) => {
                let ghost k = key@;
                self.entries.set(i, (key, value));
                proof {
                    let s1 = self.entries@;
                    assert(s1 == s0.update(i as int, s1[i as int]));
                    assert(keys_unique(s1)) by {
                        assert forall|a: int, b: int|
                            0 <= a < s1.len() && 0 <= b < s1.len() && a != b implies #[trigger] s1[a].0@
                            != #[trigger] s1[b].0@ by {
                            if a != i && b != i {
                                assert(s1[a] == s0[a] && s1[b] == s0[b]);
                            } else if a == i {
                                assert(s1[b] == s0[b]);
                                assert(s0[b].0@ != s0[i as int].0@);
                            } else {
                                assert(s1[a] == s0[a]);
                                assert(s0[a].0@ != s0[i as int].0@);
                            }
                        }
                    }
                    lemma_entries_map(s1);
                    assert(entries_map(s1) =~= entries_map(s0).insert(k, value)) by {
                        assert forall|kk: Seq<char>|
                            #[trigger] entries_map(s1).dom().contains(kk) <==> entries_map(
                                s0,
                            ).insert(k, value).dom().contains(kk) by {
                            if entries_map(s0).dom().contains(kk) {
                                let j = choose|j: int| 0 <= j < s0.len() && s0[j].0@ == kk;
                                if j != i {
                                    assert(s1[j] == s0[j]);
                                }
                            }
                            if entries_map(s1).dom().contains(kk) {
                                let j = choose|j: int| 0 <= j < s1.len() && s1[j].0@ == kk;
                                if j != i {
                                    assert(s1[j] == s0[j]);
                                }
                            }
                        }
                        assert forall|kk: Seq<char>| #[trigger]
                            entries_map(s1).dom().contains(kk) implies entries_map(s1)[kk]
                            == entries_map(s0).insert(k, value)[kk] by {
                            let j = choose|j: int| 0 <= j < s1.len() && s1[j].0@ == kk;
                            if j != i {
                                assert(s1[j] == s0[j]);
                            }
                        }
                    }
                }
            },
            None => {
                self.entries.push((key, value));
                proof {
                    let s1 = self.entries@;
                    assert(s1.drop_last() =~= s0);
                    assert(keys_unique(s1)) by {
                        assert forall|a: int, b: int|
                            0 <= a < s1.len() && 0 <= b < s1.len() && a != b implies #[trigger] s1[a].0@
                            != #[trigger] s1[b].0@ by {
                            if a < s0.len() && b < s0.len() {
                                assert(s1[a] == s0[a] && s1[b] == s0[b]);
                            } else if a < s0.len() {
                                assert(s1[a] == s0[a]);
                            } else {
                                assert(s1[b] == s0[b]);
                            }
                        }
                    }
                }
            },
        }
    }
}

impl<V: Copy> StrMap<V> {
    /// The value for a key, if the key is in the map.
    pub fn get(&self, key: &String) -> (r: Option<V>)
        requires
            self.wf(),
        ensures
            r == (if self.map().dom().contains(key@) {
                Some(self.map()[key@])
            } else {
                None
            }),
    {
        proof {
            lemma_entries_map(self.entries@);
        }
        match self.find(key) {
            Some(i) => Some(self.entries[i].1),
            None => None,
        }
    }

    /// The values, in entry order: the value of each key once, in some
    /// order of the keys.
    pub fn values(&self) -> (r: Vec<V>)
        requires
            self.wf(),
        ensures
            r@ == self.entries().map_values(|e: (String, V)| e.1),
            exists|keys: Seq<Seq<char>>|
                #[trigger] lists_keys(keys, self.map().dom()) && r@ == keys.map_values(
                    |k: Seq<char>| self.map()[k],
                ),
    {
        let mut r: Vec<V> = Vec::new();
        let mut i: usize = 0;
        while i < self.entries.len()
            invariant
                i <= self.entries@.len(),
                r@ == self.entries@.take(i as int).map_values(|e: (String, V)| e.1),
            decreases self.entries@.len() - i,
        {
            r.push(self.entries[i].1);
            proof {
                assert(self.entries@.take(i + 1) =~= self.entries@.take(i as int).push(
                    self.entries@[i as int],
                ));
            }
            i = i + 1;
            proof {
                assert(r@ =~= self.entries@.take(i as int).map_values(|e: (String, V)| e.1));
            }
        }
        proof {
            assert(self.entries@.take(i as int) =~= self.entries@);
            let es = self.entries@;
            lemma_entries_map(es);
            let keys = es.map_values(|e: (String, V)| e.0@);
            assert forall|k: Seq<char>| #[trigger] self.map().dom().contains(k) <==> keys.contains(
                k,
            ) by {
                if self.map().dom().contains(k) {
                    let j = choose|j: int| 0 <= j < es.len() && es[j].0@ == k;
                    assert(keys[j] == k);
                }
                if keys.contains(k) {
                    let j = choose|j: int| 0 <= j < keys.len() && keys[j] == k;
                    assert(es[j].0@ == k);
                }
            }
            assert(keys.no_duplicates()) by {
                assert forall|a: int, b: int|
                    0 <= a < keys.len() && 0 <= b < keys.len() && a != b implies keys[a]
                    != keys[b] by {
                    assert(es[a].0@ != es[b].0@);
                }
            }
            assert(r@ =~= keys.map_values(|k: Seq<char>| self.map()[k])) by {
                assert forall|j: int| 0 <= j < r@.len() implies r@[j] == self.map()[keys[j]] by {
                    assert(self.map()[es[j].0@] == es[j].1);
                }
            }
            assert(lists_keys(keys, self.map().dom()));
        }
        r
    }
}

} // verus!
