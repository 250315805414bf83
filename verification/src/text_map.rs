use vstd::prelude::*;

verus! {

/// A map from texts to values, kept as a list of entries in which each key
/// occurs once.
pub struct TextMap<V> {
    entries: Vec<(String, V)>,
}

/// The map of a list of entries, later entries taking precedence.
pub open spec fn pairs_map<V>(s: Seq<(String, V)>) -> Map<Seq<char>, V>
    decreases s.len(),
{
    if s.len() == 0 {
        Map::empty()
    } else {
        pairs_map(s.drop_last()).insert(s.last().0@, s.last().1)
    }
}

/// Whether no key occurs twice in a list of entries.
pub open spec fn keys_unique<V>(s: Seq<(String, V)>) -> bool {
    forall|i: int, j: int| 0 <= i < j < s.len() ==> (#[trigger] s[i]).0@ != (#[trigger] s[j]).0@
}

proof fn lemma_pairs_map_domain<V>(s: Seq<(String, V)>, k: Seq<char>)
    ensures
        pairs_map(s).dom().contains(k) <==> exists|i: int| 0 <= i < s.len() && (#[trigger] s[i]).0@ == k,
    decreases s.len(),
{
    if s.len() > 0 {
        lemma_pairs_map_domain(s.drop_last(), k);
        if exists|i: int| 0 <= i < s.len() && (#[trigger] s[i]).0@ == k {
            let i = choose|i: int| 0 <= i < s.len() && (#[trigger] s[i]).0@ == k;
            if i < s.len() - 1 {
                assert(s.drop_last()[i] == s[i]);
            }
        }
        if exists|i: int| 0 <= i < s.drop_last().len() && (#[trigger] s.drop_last()[i]).0@ == k {
            let i = choose|i: int| 0 <= i < s.drop_last().len() && (#[trigger] s.drop_last()[i]).0@ == k;
            assert(s[i] == s.drop_last()[i]);
        }
    }
}

proof fn lemma_pairs_map_update<V>(s: Seq<(String, V)>, j: int, e: (String, V))
    requires
        keys_unique(s),
        0 <= j < s.len(),
        s[j].0@ == e.0@,
    ensures
        pairs_map(s.update(j, e)) == pairs_map(s).insert(e.0@, e.1),
        keys_unique(s.update(j, e)),
    decreases s.len(),
{
    let t = s.update(j, e);
    assert forall|a: int, b: int| 0 <= a < b < t.len() implies (#[trigger] t[a]).0@ != (#[trigger] t[b]).0@ by {
        assert(s[a].0@ != s[b].0@);
    }
    if j == s.len() - 1 {
        assert(t.drop_last() =~= s.drop_last());
        assert(pairs_map(t) =~= pairs_map(s).insert(e.0@, e.1));
    } else {
        assert(t.drop_last() =~= s.drop_last().update(j, e));
        lemma_pairs_map_update(s.drop_last(), j, e);
        assert(s.last().0@ != e.0@) by {
            assert(s[j].0@ != s[s.len() - 1].0@);
        }
        assert(pairs_map(t) =~= pairs_map(s).insert(e.0@, e.1));
    }
}

impl<V> View for TextMap<V> {
    type V = Map<Seq<char>, V>;

    closed spec fn view(&self) -> Map<Seq<char>, V> {
        pairs_map(self.entries@)
    }
}

impl<V> TextMap<V> {
    /// Whether no key occurs twice.
    pub closed spec fn wf(&self) -> bool {
        keys_unique(self.entries@)
    }

    /// An empty map.
    pub fn new() -> (r: TextMap<V>)
        ensures
            r.wf(),
            r@ == Map::<Seq<char>, V>::empty(),
    {
        TextMap { entries: Vec::new() }
    }

    /// Records `value` under `key`, replacing an earlier value.
    pub fn insert(&mut self, key: String, value: V)
        requires
            old(self).wf(),
        ensures
            final(self).wf(),
            final(self)@ == old(self)@.insert(key@, value),
    {
        let ghost before = self.entries@;
        let mut i: usize = 0;
        while i < self.entries.len()
            invariant
                i <= self.entries@.len(),
                self.entries@ == before,
                before == old(self).entries@,
                keys_unique(before),
                forall|j: int| 0 <= j < i ==> (#[trigger] before[j]).0@ != key@,
            decreases self.entries@.len() - i,
        {
            if self.entries[i].0 == key {
                let ghost e = (key, value);
                proof {
                    lemma_pairs_map_update(before, i as int, e);
                }
                self.entries.set(i, (key, value));
                return;
            }
            i = i + 1;
        }
        let ghost e = (key, value);
        self.entries.push((key, value));
        assert(self.entries@.drop_last() =~= before);
        assert forall|a: int, b: int| 0 <= a < b < self.entries@.len() implies (#[trigger] self.entries@[a]).0@
            != (#[trigger] self.entries@[b]).0@ by {
            if b < before.len() {
                assert(before[a].0@ != before[b].0@);
            } else {
                assert(self.entries@[a] == before[a]);
            }
        }
    }

    /// The value recorded under `key`.
    pub fn get(&self, key: &str) -> (r: Option<&V>)
        requires
            self.wf(),
        ensures
            r == (if self@.dom().contains(key@) { Some(&self@[key@]) } else { None }),
    {
        let wanted = key.to_owned();
        let mut i: usize = 0;
        while i < self.entries.len()
            invariant
                i <= self.entries@.len(),
                wanted@ == key@,
                keys_unique(self.entries@),
                forall|j: int| 0 <= j < i ==> (#[trigger] self.entries@[j]).0@ != key@,
            decreases self.entries@.len() - i,
        {
            if self.entries[i].0 == wanted {
                proof {
                    lemma_pairs_map_value(self.entries@, i as int);
                }
                return Some(&self.entries[i].1);
            }
            i = i + 1;
        }
        proof {
            lemma_pairs_map_domain(self.entries@, key@);
        }
        None
    }

    /// The number of keys.
    pub fn len(&self) -> (r: usize)
        requires
            self.wf(),
        ensures
            r == self@.len(),
    {
        proof {
            lemma_pairs_map_len(self.entries@);
        }
        self.entries.len()
    }
}

proof fn lemma_pairs_map_value<V>(s: Seq<(String, V)>, i: int)
    requires
        keys_unique(s),
        0 <= i < s.len(),
    ensures
        pairs_map(s).dom().contains(s[i].0@),
        pairs_map(s)[s[i].0@] == s[i].1,
    decreases s.len(),
{
    if i < s.len() - 1 {
        assert(s.drop_last()[i] == s[i]);
        assert forall|a: int, b: int| 0 <= a < b < s.drop_last().len() implies (#[trigger] s.drop_last()[a]).0@
            != (#[trigger] s.drop_last()[b]).0@ by {
            assert(s[a].0@ != s[b].0@);
        }
        lemma_pairs_map_value(s.drop_last(), i);
        assert(s[i].0@ != s.last().0@);
    }
}

proof fn lemma_pairs_map_len<V>(s: Seq<(String, V)>)
    requires
        keys_unique(s),
    ensures
        pairs_map(s).dom().finite(),
        pairs_map(s).len() == s.len(),
    decreases s.len(),
{
    if s.len() > 0 {
        let d = s.drop_last();
        assert forall|a: int, b: int| 0 <= a < b < d.len() implies (#[trigger] d[a]).0@ != (#[trigger] d[b]).0@ by {
            assert(s[a].0@ != s[b].0@);
        }
        lemma_pairs_map_len(d);
        lemma_pairs_map_domain(d, s.last().0@);
        assert(!pairs_map(d).dom().contains(s.last().0@)) by {
            if pairs_map(d).dom().contains(s.last().0@) {
                let i = choose|i: int| 0 <= i < d.len() && (#[trigger] d[i]).0@ == s.last().0@;
                assert(s[i].0@ != s[s.len() - 1].0@);
            }
        }
    }
}

/// What a map records under a key is what was last inserted under it, and
/// inserting under one key leaves the others as they were.
pub proof fn law_get_after_insert<V>(m: Map<Seq<char>, V>, k: Seq<char>, v: V, other: Seq<char>)
    requires
        other != k,
    ensures
        m.insert(k, v).dom().contains(k),
        m.insert(k, v)[k] == v,
        m.insert(k, v).dom().contains(other) == m.dom().contains(other),
        m.dom().contains(other) ==> m.insert(k, v)[other] == m[other],
{
}

} // verus!
