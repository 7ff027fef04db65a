//! Coroutine-local storage: each coroutine (and the thread outside any
//! coroutine) keeps a map from names to values, which `Context::get` and
//! `Context::set` read and write.

use vstd::prelude::*;

verus! {

/// The map that a sequence of entries describes: a later entry for a name
/// overrides an earlier one.
pub open spec fn entries_map<V>(s: Seq<(Seq<char>, V)>) -> Map<Seq<char>, V>
    decreases s.len(),
{
    if s.len() == 0 {
        Map::empty()
    } else {
        entries_map(s.drop_last()).insert(s.last().0, s.last().1)
    }
}

/// No name occurs in two entries.
pub open spec fn unique_names<V>(s: Seq<(Seq<char>, V)>) -> bool {
    forall|i: int, j: int| 0 <= i < j < s.len() ==> s[i].0 != s[j].0
}

proof fn lemma_entries_map_domain<V>(s: Seq<(Seq<char>, V)>, k: Seq<char>)
    ensures
        entries_map(s).contains_key(k) <==> exists|i: int| 0 <= i < s.len() && s[i].0 == k,
    decreases s.len(),
{
    if s.len() > 0 {
        lemma_entries_map_domain(s.drop_last(), k);
        if entries_map(s).contains_key(k) && k != s.last().0 {
            let i = choose|i: int| 0 <= i < s.len() - 1 && s.drop_last()[i].0 == k;
            assert(s[i].0 == k);
        }
        if exists|i: int| 0 <= i < s.len() && s[i].0 == k {
            let i = choose|i: int| 0 <= i < s.len() && s[i].0 == k;
            if i < s.len() - 1 {
                assert(s.drop_last()[i].0 == k);
            }
        }
    }
}

proof fn lemma_entries_map_value<V>(s: Seq<(Seq<char>, V)>, i: int)
    requires
        unique_names(s),
        0 <= i < s.len(),
    ensures
        entries_map(s).contains_key(s[i].0),
        entries_map(s)[s[i].0] == s[i].1,
    decreases s.len(),
{
    if i < s.len() - 1 {
        let t = s.drop_last();
        assert(unique_names(t));
        assert(t[i] == s[i]);
        lemma_entries_map_value(t, i);
        assert(s[i].0 != s.last().0);
    }
}

proof fn lemma_entries_map_update<V>(s: Seq<(Seq<char>, V)>, i: int, v: V)
    requires
        unique_names(s),
        0 <= i < s.len(),
    ensures
        entries_map(s.update(i, (s[i].0, v))) == entries_map(s).insert(s[i].0, v),
    decreases s.len(),
{
    let k = s[i].0;
    let u = s.update(i, (k, v));
    if i == s.len() - 1 {
        assert(u.drop_last() =~= s.drop_last());
        assert(entries_map(u) =~= entries_map(s).insert(k, v));
    } else {
        let t = s.drop_last();
        assert(unique_names(t));
        assert(t[i] == s[i]);
        lemma_entries_map_update(t, i, v);
        assert(u.drop_last() =~= t.update(i, (k, v)));
        assert(u.last() == s.last());
        assert(k != s.last().0);
        assert(entries_map(u) =~= entries_map(s).insert(k, v));
    }
}

/// The names and values of one context.
pub struct ContextMap<V> {
    entries: Vec<(String, V)>,
}

impl<V> View for ContextMap<V> {
    type V = Map<Seq<char>, V>;

    closed spec fn view(&self) -> Map<Seq<char>, V> {
        entries_map(self.entries@.map_values(|e: (String, V)| (e.0@, e.1)))
    }
}

impl<V> ContextMap<V> {
    /// The entries as names and values.
    closed spec fn entry_seq(&self) -> Seq<(Seq<char>, V)> {
        self.entries@.map_values(|e: (String, V)| (e.0@, e.1))
    }

    /// Whether the map is well formed: each name is held once.
    pub closed spec fn wf(&self) -> bool {
        unique_names(self.entry_seq())
    }

    /// An empty context.
    pub fn new() -> (m: Self)
        ensures
            m.wf(),
            m@ == Map::<Seq<char>, V>::empty(),
    {
        let m = ContextMap { entries: Vec::new() };
        assert(m.entry_seq() =~= Seq::<(Seq<char>, V)>::empty());
        m
    }

    fn find(&self, id: &String) -> (r: Option<usize>)
        requires
            self.wf(),
        ensures
            match r {
                Some(i) => i < self.entry_seq().len() && self.entry_seq()[i as int].0 == id@,
                None => !self@.contains_key(id@),
            },
    {
        let mut i: usize = 0;
        while i < self.entries.len()
            invariant
                i <= self.entries@.len(),
                forall|j: int| 0 <= j < i ==> self.entry_seq()[j].0 != id@,
            decreases self.entries@.len() - i,
        {
            if self.entries[i].0 == *id {
                return Some(i);
            }
            i = i + 1;
        }
        proof {
            lemma_entries_map_domain(self.entry_seq(), id@);
        }
        None
    }

    /// The value held under `id`, if any.
    pub fn get(&self, id: &str) -> (r: Option<&V>)
        requires
            self.wf(),
        ensures
            match r {
                Some(v) => self@.contains_key(id@) && *v == self@[id@],
                None => !self@.contains_key(id@),
            },
    {
        let key = id.to_owned();
        match self.find(&key) {
            Some(i) => {
                proof {
                    lemma_entries_map_value(self.entry_seq(), i as int);
                }
                Some(&self.entries[i].1)
            },
            None => None,
        }
    }

    /// Holds `value` under `id`, replacing any value held there.
    pub fn set(&mut self, id: &str, value: V)
        requires
            old(self).wf(),
        ensures
            final(self).wf(),
            final(self)@ == old(self)@.insert(id@, value),
    {
        let key = id.to_owned();
        match self.find(&key) {
            Some(i) => {
                let ghost s = self.entry_seq();
                self.entries.set(i, (key, value));
                proof {
                    assert(self.entry_seq() =~= s.update(i as int, (s[i as int].0, value)));
                    lemma_entries_map_update(s, i as int, value);
                }
            },
            None => {
                let ghost s = self.entry_seq();
                proof {
                    lemma_entries_map_domain(s, id@);
                }
                self.entries.push((key, value));
                assert(self.entry_seq() =~= s.push((id@, value)));
                assert(self.entry_seq().drop_last() =~= s);
            },
        }
    }
}

/// What a read gives back of a write: after `set(id, v)`, reading `id`
/// gives `v`, and every other name reads as before.
pub proof fn law_get_after_set<V>(m: Map<Seq<char>, V>, id: Seq<char>, v: V, other: Seq<char>)
    requires
        other != id,
    ensures
        m.insert(id, v).contains_key(id),
        m.insert(id, v)[id] == v,
        m.insert(id, v).contains_key(other) == m.contains_key(other),
        m.contains_key(other) ==> m.insert(id, v)[other] == m[other],
{
}

} // verus!
