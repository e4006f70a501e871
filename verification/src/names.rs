//! Tables keyed by name, as the back end and the analysis keep them.
use vstd::prelude::*;

use crate::text::str_eq;

verus! {

/// The map that a list of `(name, value)` entries stands for: the first
/// entry with a given name wins.
pub open spec fn entries_map<V>(s: Seq<(String, V)>) -> Map<Seq<char>, V>
    decreases s.len(),
{
    if s.len() == 0 {
        Map::empty()
    } else {
        entries_map(s.subrange(1, s.len() as int)).insert(s[0].0@, s[0].1)
    }
}

/// Whether `i` is the first entry named `k`.
pub open spec fn is_first_key<V>(s: Seq<(String, V)>, k: Seq<char>, i: int) -> bool {
    &&& 0 <= i < s.len()
    &&& s[i].0@ == k
    &&& forall|j: int| 0 <= j < i ==> s[j].0@ != k
}

pub proof fn lemma_entries_map_dom<V>(s: Seq<(String, V)>, k: Seq<char>)
    ensures
        entries_map(s).dom().contains(k) <==> exists|i: int| 0 <= i < s.len() && s[i].0@ == k,
        entries_map(s).dom().finite(),
    decreases s.len(),
{
    if s.len() > 0 {
        let t = s.subrange(1, s.len() as int);
        lemma_entries_map_dom(t, k);
        if entries_map(t).dom().contains(k) {
            let j = choose|j: int| 0 <= j < t.len() && t[j].0@ == k;
            assert(s[j + 1] == t[j]);
        }
        if exists|i: int| 0 <= i < s.len() && s[i].0@ == k {
            let i = choose|i: int| 0 <= i < s.len() && s[i].0@ == k;
            if i > 0 {
                assert(t[i - 1] == s[i]);
            }
        }
    }
}

pub proof fn lemma_entries_map_first<V>(s: Seq<(String, V)>, k: Seq<char>, i: int)
    requires
        is_first_key(s, k, i),
    ensures
        entries_map(s).dom().contains(k),
        entries_map(s)[k] == s[i].1,
    decreases s.len(),
{
    if i > 0 {
        let t = s.subrange(1, s.len() as int);
        assert forall|j: int| 0 <= j < i - 1 implies t[j].0@ != k by {
            assert(t[j] == s[j + 1]);
        }
        assert(t[i - 1] == s[i]);
        lemma_entries_map_first(t, k, i - 1);
    }
}

/// Replacing the value of the first entry named `k` updates the map at `k`.
pub proof fn lemma_entries_map_update<V>(s: Seq<(String, V)>, k: Seq<char>, i: int, e: (String, V))
    requires
        is_first_key(s, k, i),
        e.0@ == k,
    ensures
        entries_map(s.update(i, e)) == entries_map(s).insert(k, e.1),
    decreases s.len(),
{
    let u = s.update(i, e);
    let t = s.subrange(1, s.len() as int);
    if i == 0 {
        assert(u.subrange(1, u.len() as int) =~= t);
        assert(entries_map(u) =~= entries_map(s).insert(k, e.1));
    } else {
        assert forall|j: int| 0 <= j < i - 1 implies t[j].0@ != k by {
            assert(t[j] == s[j + 1]);
        }
        assert(t[i - 1] == s[i]);
        lemma_entries_map_update(t, k, i - 1, e);
        assert(u.subrange(1, u.len() as int) =~= t.update(i - 1, e));
        assert(s[0].0@ != k);
        assert(entries_map(u) =~= entries_map(s).insert(k, e.1));
    }
}

/// Appending an entry with a new name adds it to the map.
pub proof fn lemma_entries_map_push<V>(s: Seq<(String, V)>, e: (String, V))
    requires
        forall|j: int| 0 <= j < s.len() ==> s[j].0@ != e.0@,
    ensures
        entries_map(s.push(e)) == entries_map(s).insert(e.0@, e.1),
    decreases s.len(),
{
    let u = s.push(e);
    if s.len() == 0 {
        assert(u.subrange(1, u.len() as int) =~= Seq::<(String, V)>::empty());
        assert(u[0] == e);
        assert(entries_map(u.subrange(1, u.len() as int)) == Map::<Seq<char>, V>::empty());
        assert(entries_map(s) == Map::<Seq<char>, V>::empty());
        assert(entries_map(u) =~= entries_map(s).insert(e.0@, e.1));
    } else {
        let t = s.subrange(1, s.len() as int);
        assert forall|j: int| 0 <= j < t.len() implies t[j].0@ != e.0@ by {
            assert(t[j] == s[j + 1]);
        }
        lemma_entries_map_push(t, e);
        assert(u.subrange(1, u.len() as int) =~= t.push(e));
        assert(entries_map(u) =~= entries_map(s).insert(e.0@, e.1));
    }
}

/// Two entry lists with the same names, position by position, find the
/// same position for each name.
pub proof fn lemma_entries_map_same_keys<V, W>(s: Seq<(String, V)>, t: Seq<(String, W)>, k: Seq<char>)
    requires
        s.len() == t.len(),
        forall|i: int| 0 <= i < s.len() ==> (#[trigger] s[i]).0@ == t[i].0@,
    ensures
        entries_map(s).dom().contains(k) == entries_map(t).dom().contains(k),
        entries_map(s).dom().contains(k) ==> exists|i: int|
            0 <= i < s.len() && s[i].0@ == k && entries_map(s)[k] == s[i].1 && entries_map(t)[k]
                == #[trigger] t[i].1,
    decreases s.len(),
{
    if s.len() > 0 {
        let s1 = s.subrange(1, s.len() as int);
        let t1 = t.subrange(1, t.len() as int);
        assert forall|i: int| 0 <= i < s1.len() implies (#[trigger] s1[i]).0@ == t1[i].0@ by {
            assert(s1[i] == s[i + 1]);
            assert(t1[i] == t[i + 1]);
        }
        lemma_entries_map_same_keys(s1, t1, k);
        assert(s[0].0@ == t[0].0@);
        if k != s[0].0@ && entries_map(s1).dom().contains(k) {
            let i = choose|i: int|
                0 <= i < s1.len() && s1[i].0@ == k && entries_map(s1)[k] == s1[i].1 && entries_map(
                    t1,
                )[k] == #[trigger] t1[i].1;
            assert(s1[i] == s[i + 1]);
            assert(t1[i] == t[i + 1]);
        }
        if k == s[0].0@ {
            assert(entries_map(t)[k] == t[0].1);
        }
    }
}

/// Looking a name up after setting it gives the value set, and every other
/// name keeps its value.
pub proof fn lemma_get_after_insert<V>(m: Map<Seq<char>, V>, k: Seq<char>, v: V, other: Seq<char>)
    requires
        other != k,
    ensures
        m.insert(k, v).dom().contains(k),
        m.insert(k, v)[k] == v,
        m.insert(k, v).dom().contains(other) == m.dom().contains(other),
        m.dom().contains(other) ==> m.insert(k, v)[other] == m[other],
{
}

/// A table from names to values; looking a name up finds its first entry.
#[derive(Debug)]
pub struct NameMap<V> {
    pub entries: Vec<(String, V)>,
}

impl<V> View for NameMap<V> {
    type V = Map<Seq<char>, V>;

    open spec fn view(&self) -> Map<Seq<char>, V> {
        entries_map(self.entries@)
    }
}

impl<V> NameMap<V> {
    /// An empty table.
    pub fn new() -> (m: Self)
        ensures
            m@ == Map::<Seq<char>, V>::empty(),
            m.entries@.len() == 0,
    {
        NameMap { entries: Vec::new() }
    }

    /// The index of the first entry named `key`.
    pub fn index_of(&self, key: &str) -> (r: Option<usize>)
        ensures
            match r {
                Some(i) => is_first_key(self.entries@, key@, i as int),
                None => forall|j: int|
                    0 <= j < self.entries@.len() ==> self.entries@[j].0@ != key@,
            },
            r is Some <==> self@.dom().contains(key@),
    {
        proof {
            lemma_entries_map_dom(self.entries@, key@);
        }
        let mut i: usize = 0;
        while i < self.entries.len()
            invariant
                i <= self.entries@.len(),
                forall|j: int| 0 <= j < i ==> self.entries@[j].0@ != key@,
            decreases self.entries@.len() - i,
        {
            if str_eq(self.entries[i].0.as_str(), key) {
                assert(0 <= i < self.entries@.len() && self.entries@[i as int].0@ == key@);
                proof {
                    lemma_entries_map_dom(self.entries@, key@);
                }
                return Some(i);
            }
            i = i + 1;
        }
        None
    }

    /// Whether some entry is named `key`.
    pub fn contains_key(&self, key: &str) -> (r: bool)
        ensures
            r == self@.dom().contains(key@),
    {
        self.index_of(key).is_some()
    }

    /// The value of the first entry named `key`.
    pub fn get(&self, key: &str) -> (r: Option<&V>)
        ensures
            match r {
                Some(v) => self@.dom().contains(key@) && self@[key@] == *v,
                None => !self@.dom().contains(key@),
            },
    {
        match self.index_of(key) {
            Some(i) => {
                proof {
                    lemma_entries_map_first(self.entries@, key@, i as int);
                }
                Some(&self.entries[i].1)
            },
            None => None,
        }
    }

    /// Sets the value of `key`: the first entry named `key` is replaced, or
    /// a new entry is added at the end.
    pub fn insert(&mut self, key: String, value: V)
        ensures
            final(self)@ == old(self)@.insert(key@, value),
    {
        match self.index_of(key.as_str()) {
            Some(i) => {
                proof {
                    lemma_entries_map_update(self.entries@, key@, i as int, (key, value));
                }
                self.entries.set(i, (key, value));
            },
            None => {
                proof {
                    lemma_entries_map_push(self.entries@, (key, value));
                }
                self.entries.push((key, value));
            },
        }
    }
}

} // verus!
