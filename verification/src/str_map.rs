//! A map keyed by strings, holding each key once.
use vstd::prelude::*;

verus! {

/// Whether no two entries share a key.
pub open spec fn keys_distinct<V>(s: Seq<(String, V)>) -> bool {
    forall|i: int, j: int| 0 <= i < s.len() && 0 <= j < s.len() && i != j ==> s[i].0@ != s[j].0@
}

/// The map that a list of entries denotes.
pub open spec fn map_of<V>(s: Seq<(String, V)>) -> Map<Seq<char>, V>
    decreases s.len(),
{
    if s.len() == 0 {
        Map::empty()
    } else {
        map_of(s.drop_last()).insert(s.last().0@, s.last().1)
    }
}

/// The keys of a list of entries and their values, entry by entry.
pub proof fn lemma_map_of<V>(s: Seq<(String, V)>)
    requires
        keys_distinct(s),
    ensures
        forall|k: Seq<char>| #[trigger]
            map_of(s).contains_key(k) <==> exists|i: int| 0 <= i < s.len() && s[i].0@ == k,
        forall|i: int| 0 <= i < s.len() ==> #[trigger] map_of(s)[s[i].0@] == s[i].1,
        forall|i: int| 0 <= i < s.len() ==> map_of(s).contains_key(#[trigger] s[i].0@),
    decreases s.len(),
{
    if s.len() > 0 {
        let p = s.drop_last();
        assert(keys_distinct(p));
        lemma_map_of(p);
        assert forall|k: Seq<char>| #[trigger]
            map_of(s).contains_key(k) <==> exists|i: int| 0 <= i < s.len() && s[i].0@ == k by {
            if map_of(s).contains_key(k) {
                if k == s.last().0@ {
                    assert(s[s.len() - 1].0@ == k);
                } else {
                    assert(map_of(p).contains_key(k));
                    let i = choose|i: int| 0 <= i < p.len() && p[i].0@ == k;
                    assert(s[i].0@ == k);
                }
            }
            if exists|i: int| 0 <= i < s.len() && s[i].0@ == k {
                let i = choose|i: int| 0 <= i < s.len() && s[i].0@ == k;
                if i < s.len() - 1 {
                    assert(p[i].0@ == k);
                }
            }
        }
        assert forall|i: int| 0 <= i < s.len() implies #[trigger] map_of(s)[s[i].0@] == s[i].1
            && map_of(s).contains_key(s[i].0@) by {
            if i < s.len() - 1 {
                assert(p[i] == s[i]);
                assert(s[i].0@ != s[s.len() - 1].0@);
            }
        }
    }
}

proof fn lemma_map_of_update<V>(s: Seq<(String, V)>, i: int, e: (String, V))
    requires
        keys_distinct(s),
        0 <= i < s.len(),
        e.0@ == s[i].0@,
    ensures
        keys_distinct(s.update(i, e)),
        map_of(s.update(i, e)) == map_of(s).insert(e.0@, e.1),
    decreases s.len(),
{
    let u = s.update(i, e);
    let p = s.drop_last();
    assert(keys_distinct(u));
    if i == s.len() - 1 {
        assert(u.drop_last() =~= p);
        assert(map_of(u) =~= map_of(s).insert(e.0@, e.1));
    } else {
        assert(u.drop_last() =~= p.update(i, e));
        assert(keys_distinct(p));
        lemma_map_of_update(p, i, e);
        assert(s.last().0@ != e.0@);
        assert(map_of(u) =~= map_of(s).insert(e.0@, e.1));
    }
}

/// A map from strings to values, kept as a list of entries without repeated keys.
#[derive(Debug)]
pub struct StrMap<V> {
    entries: Vec<(String, V)>,
}

impl<V> View for StrMap<V> {
    type V = Map<Seq<char>, V>;

    closed spec fn view(&self) -> Map<Seq<char>, V> {
        map_of(self.entries@)
    }
}

impl<V> StrMap<V> {
    /// The entries do not repeat a key.
    #[verifier::type_invariant]
    pub closed spec fn inv(self) -> bool {
        keys_distinct(self.entries@)
    }

    /// The entries of the map.
    pub closed spec fn entry_seq(self) -> Seq<(String, V)> {
        self.entries@
    }

    /// An empty map.
    pub fn new() -> (r: Self)
        ensures
            r@ == Map::<Seq<char>, V>::empty(),
    {
        StrMap { entries: Vec::new() }
    }

    /// The position of `key` among the entries.
    fn position(&self, key: &str) -> (r: Option<usize>)
        ensures
            match r {
                Some(i) => i < self.entries@.len() && self.entries@[i as int].0@ == key@,
                None => forall|i: int|
                    0 <= i < self.entries@.len() ==> self.entries@[i].0@ != key@,
            },
    {
        let k = String::from_str(key);
        let mut i: usize = 0;
        while i < self.entries.len()
            invariant
                k@ == key@,
                i <= self.entries@.len(),
                forall|j: int| 0 <= j < i ==> self.entries@[j].0@ != key@,
            decreases self.entries@.len() - i,
        {
            if self.entries[i].0 == k {
                return Some(i);
            }
            i += 1;
        }
        None
    }

    /// The value stored under `key`.
    pub fn get(&self, key: &str) -> (r: Option<&V>)
        ensures
            match r {
                Some(v) => self@.contains_key(key@) && *v == self@[key@],
                None => !self@.contains_key(key@),
            },
    {
        proof {
            use_type_invariant(self);
            lemma_map_of(self.entries@);
        }
        match self.position(key) {
            Some(i) => Some(&self.entries[i].1),
            None => None,
        }
    }

    /// Whether a value is stored under `key`.
    pub fn contains_key(&self, key: &str) -> (r: bool)
        ensures
            r == self@.contains_key(key@),
    {
        proof {
            use_type_invariant(self);
            lemma_map_of(self.entries@);
        }
        self.position(key).is_some()
    }

    /// Whether the map holds no entry.
    pub fn is_empty(&self) -> (r: bool)
        ensures
            r <==> self@.dom() =~= Set::<Seq<char>>::empty(),
    {
        proof {
            use_type_invariant(self);
            lemma_map_of(self.entries@);
            if self.entries@.len() > 0 {
                assert(self@.contains_key(self.entries@[0].0@));
            }
        }
        self.entries.len() == 0
    }

    /// How many keys the map holds.
    pub fn len(&self) -> (r: usize)
        ensures
            r == self.entry_seq().len(),
    {
        self.entries.len()
    }

    /// Stores `value` under `key`, replacing any value stored there before.
    pub fn insert(&mut self, key: String, value: V)
        ensures
            final(self)@ == old(self)@.insert(key@, value),
    {
        proof {
            use_type_invariant(&*self);
        }
        let pos = self.position(key.as_str());
        let mut entries = Vec::new();
        std::mem::swap(&mut entries, &mut self.entries);
        let ghost old_entries = entries@;
        proof {
            lemma_map_of(old_entries);
        }
        match pos {
            Some(i) => {
                let mut rest = entries.split_off(i);
                let _ = rest.remove(0);
                let ghost tail = rest@;
                let ghost key_view = key@;
                entries.push((key, value));
                entries.append(&mut rest);
                proof {
                    let s = entries@;
                    assert(s =~= old_entries.update(i as int, s[i as int]));
                    lemma_map_of_update(old_entries, i as int, s[i as int]);
                }
            },
            None => {
                entries.push((key, value));
                proof {
                    assert(entries@.drop_last() =~= old_entries);
                }
            },
        }
        self.entries = entries;
    }

    /// The map built from `pairs` in order; a later pair replaces an earlier one with
    /// the same key.
    pub fn from_pairs(pairs: Vec<(String, V)>) -> (r: Self)
        ensures
            r@ == map_of(pairs@),
    {
        let ghost all = pairs@;
        let mut r = StrMap::new();
        for p in it: pairs
            invariant
                it.seq() == all,
                r@ == map_of(all.take(it.index() as int)),
        {
            proof {
                assert(all.take(it.index() + 1).drop_last() =~= all.take(it.index() as int));
            }
            r.insert(p.0, p.1);
        }
        assert(all.take(all.len() as int) =~= all);
        r
    }

    /// The entries of the map, each key once.
    pub fn entries(&self) -> (r: &Vec<(String, V)>)
        ensures
            map_of(r@) == self@,
            keys_distinct(r@),
            r@ == self.entry_seq(),
    {
        proof {
            use_type_invariant(self);
        }
        &self.entries
    }
}

impl<V: Clone> Clone for StrMap<V> {
    /// A copy of the map whose values are clones of the original ones.
    fn clone(&self) -> (r: Self)
        ensures
            r@.dom() == self@.dom(),
            forall|k: Seq<char>| #[trigger] self@.contains_key(k) ==> cloned(self@[k], r@[k]),
    {
        proof {
            use_type_invariant(self);
        }
        let mut entries: Vec<(String, V)> = Vec::new();
        let mut i: usize = 0;
        while i < self.entries.len()
            invariant
                keys_distinct(self.entries@),
                i <= self.entries@.len(),
                entries@.len() == i,
                forall|j: int| 0 <= j < i ==> #[trigger] entries@[j].0 == self.entries@[j].0,
                forall|j: int|
                    0 <= j < i ==> cloned(self.entries@[j].1, #[trigger] entries@[j].1),
            decreases self.entries@.len() - i,
        {
            let k = self.entries[i].0.clone();
            let v = self.entries[i].1.clone();
            entries.push((k, v));
            i += 1;
        }
        proof {
            let a = self.entries@;
            let b = entries@;
            assert(keys_distinct(b));
            lemma_map_of(a);
            lemma_map_of(b);
            assert forall|k: Seq<char>| map_of(b).contains_key(k) <==> map_of(a).contains_key(k) by {
                if map_of(b).contains_key(k) {
                    let j = choose|j: int| 0 <= j < b.len() && b[j].0@ == k;
                    assert(a[j].0@ == k);
                }
                if map_of(a).contains_key(k) {
                    let j = choose|j: int| 0 <= j < a.len() && a[j].0@ == k;
                    assert(b[j].0@ == k);
                }
            }
            assert(map_of(b).dom() =~= map_of(a).dom());
            assert forall|k: Seq<char>| #[trigger] map_of(a).contains_key(k) implies cloned(
                map_of(a)[k],
                map_of(b)[k],
            ) by {
                let j = choose|j: int| 0 <= j < a.len() && a[j].0@ == k;
                assert(b[j].0@ == k);
            }
        }
        StrMap { entries }
    }
}

} // verus!
