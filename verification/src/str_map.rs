//! A map keyed by strings, kept as the list of its insertions.

use vstd::prelude::*;
use crate::text::str_eq;

verus! {

/// The map that a list of insertions builds: a later insertion of a key
/// takes the place of an earlier one.
pub open spec fn entries_map<V>(s: Seq<(String, V)>) -> Map<Seq<char>, V>
    decreases s.len(),
{
    if s.len() == 0 {
        Map::empty()
    } else {
        entries_map(s.drop_last()).insert(s.last().0@, s.last().1)
    }
}

/// A key is in the map exactly when some insertion carries it.
pub proof fn lemma_entries_map_dom<V>(s: Seq<(String, V)>, k: Seq<char>)
    ensures
        entries_map(s).contains_key(k) <==> exists|i: int| 0 <= i < s.len() && (#[trigger] s[i]).0@ == k,
    decreases s.len(),
{
    if s.len() > 0 {
        lemma_entries_map_dom(s.drop_last(), k);
        if entries_map(s.drop_last()).contains_key(k) {
            let i = choose|i: int| 0 <= i < s.drop_last().len() && (#[trigger] s.drop_last()[i]).0@ == k;
            assert(s[i] == s.drop_last()[i]);
        }
        if exists|i: int| 0 <= i < s.len() && (#[trigger] s[i]).0@ == k {
            let i = choose|i: int| 0 <= i < s.len() && (#[trigger] s[i]).0@ == k;
            if i < s.len() - 1 {
                assert(s.drop_last()[i] == s[i]);
            }
        }
    }
}

/// Where no insertion after index `j` carries the key of insertion `j`, the
/// map holds the value of insertion `j` for that key.
pub proof fn lemma_entries_map_last<V>(s: Seq<(String, V)>, j: int)
    requires
        0 <= j < s.len(),
        forall|i: int| j < i < s.len() ==> (#[trigger] s[i]).0@ != s[j].0@,
    ensures
        entries_map(s).contains_key(s[j].0@),
        entries_map(s)[s[j].0@] == s[j].1,
    decreases s.len(),
{
    if j < s.len() - 1 {
        let t = s.drop_last();
        assert forall|i: int| j < i < t.len() implies (#[trigger] t[i]).0@ != t[j].0@ by {
            assert(t[i] == s[i]);
        }
        lemma_entries_map_last(t, j);
        assert(t[j] == s[j]);
        assert(s.last() == s[s.len() - 1]);
    }
}

/// A map from strings to values of type `V`.
#[derive(Debug)]
pub struct StrMap<V> {
    entries: Vec<(String, V)>,
}

impl<V> View for StrMap<V> {
    type V = Map<Seq<char>, V>;

    closed spec fn view(&self) -> Map<Seq<char>, V> {
        entries_map(self.entries@)
    }
}

impl<V> StrMap<V> {
    /// The empty map.
    pub fn new() -> (res: Self)
        ensures
            res@ == Map::<Seq<char>, V>::empty(),
    {
        StrMap { entries: Vec::new() }
    }

    /// Maps `key` to `value`, in place of what it mapped to before.
    pub fn insert(&mut self, key: String, value: V)
        ensures
            final(self)@ == old(self)@.insert(key@, value),
    {
        let ghost before = self.entries@;
        self.entries.push((key, value));
        assert(self.entries@.drop_last() =~= before);
    }

    /// The value that `key` maps to, if any.
    pub fn get(&self, key: &str) -> (res: Option<&V>)
        ensures
            match res {
                Some(v) => self@.contains_key(key@) && *v == self@[key@],
                None => !self@.contains_key(key@),
            },
    {
        let n = self.entries.len();
        let mut i = n;
        while i > 0
            invariant
                n == self.entries@.len(),
                i <= n,
                forall|j: int| i <= j < n ==> (#[trigger] self.entries@[j]).0@ != key@,
            decreases i,
        {
            let idx = i - 1;
            if str_eq(self.entries[idx].0.as_str(), key) {
                proof {
                    lemma_entries_map_last(self.entries@, idx as int);
                }
                return Some(&self.entries[idx].1);
            }
            i = idx;
        }
        proof {
            lemma_entries_map_dom(self.entries@, key@);
        }
        None
    }

    /// The insertions that built the map, in order.
    pub closed spec fn entry_list(&self) -> Seq<(String, V)> {
        self.entries@
    }

    /// The insertions that built the map, in order.
    pub fn entries(&self) -> (res: &Vec<(String, V)>)
        ensures
            entries_map(res@) == self@,
            res@ == self.entry_list(),
    {
        &self.entries
    }

    /// Whether `key` maps to a value.
    pub fn contains_key(&self, key: &str) -> (res: bool)
        ensures
            res == self@.contains_key(key@),
    {
        self.get(key).is_some()
    }
}

} // verus!
